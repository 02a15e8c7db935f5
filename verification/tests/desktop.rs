//! Launching, icons, default actions and the directory scan.

use worktree_status::actions::{editor_location, get_default_actions, Action};
use worktree_status::icons::{
    bundle_icon_path, choose_icon_format, decoded_request, executable_not_found, failure_page,
    icon_source, image_media_type, needs_path_search, path_not_found,
    preferred_icon_formats, request_path, strip_lead, IconFormat, IconSource,
};
use worktree_status::launcher::{
    application_plist, begin_launch, bundle_binary_path, check_launch, get_app_binary_path,
    is_app_bundle, launch_listed, needs_bundle_info, AppPlist, LaunchStep, Platform,
};
use worktree_status::scan::{scan_directory, DirectoryEntry, DirectoryResult};
use worktree_status::serving::{IconRequest, IconStep};

fn plist(executable: &str, icon: Option<&str>) -> AppPlist {
    AppPlist {
        cf_bundle_executable: executable.to_string(),
        cf_bundle_icon_file: icon.map(|i| i.to_string()),
    }
}

#[test]
fn bundles_are_told_by_their_ending() {
    assert!(is_app_bundle("/Applications/Visual Studio Code.app"));
    assert!(is_app_bundle(".app"));
    assert!(!is_app_bundle("/Applications/Visual Studio Code.app/"));
    assert!(!is_app_bundle("/usr/bin/open"));
    assert!(!is_app_bundle("app"));
    assert!(!is_app_bundle(""));
}

#[test]
fn only_macos_looks_into_bundles() {
    assert!(needs_bundle_info(Platform::MacOs, "/Applications/Finder.app"));
    assert!(!needs_bundle_info(Platform::MacOs, "/usr/bin/open"));
    assert!(!needs_bundle_info(Platform::Windows, "C:/Tools/Thing.app"));
    assert!(!needs_bundle_info(Platform::Other, "/opt/Thing.app"));
}

#[test]
fn property_list_lies_in_the_contents_of_the_bundle() {
    assert_eq!(
        application_plist("/Applications/Terminal.app", true),
        Ok("/Applications/Terminal.app/Contents/Info.plist".to_string())
    );
}

#[test]
fn property_list_of_no_directory_is_refused() {
    assert_eq!(
        application_plist("/Applications/Terminal.app", false),
        Err("app_bundle is not a directory!".to_string())
    );
}

#[test]
fn bundle_starts_the_executable_that_its_list_names() {
    assert_eq!(
        get_app_binary_path(
            Platform::MacOs,
            "/Applications/Visual Studio Code.app",
            Ok(plist("Electron", None))
        ),
        Ok("/Applications/Visual Studio Code.app/Contents/MacOS/Electron".to_string())
    );
}

#[test]
fn bundle_without_readable_list_fails_with_the_reason() {
    assert_eq!(
        get_app_binary_path(Platform::MacOs, "/Broken.app", Err("no list".to_string())),
        Err("no list".to_string())
    );
}

#[test]
fn other_paths_start_as_they_are() {
    assert_eq!(
        get_app_binary_path(Platform::MacOs, "open", Err("not read".to_string())),
        Ok("open".to_string())
    );
    assert_eq!(
        get_app_binary_path(Platform::Windows, "C:/Code.app", Ok(plist("Code", None))),
        Ok("C:/Code.app".to_string())
    );
    assert_eq!(
        get_app_binary_path(Platform::Other, "/opt/thing.app", Err(String::new())),
        Ok("/opt/thing.app".to_string())
    );
}

#[test]
fn launch_needs_both_paths() {
    let refused = Err("app_path or worktree_path is empty!".to_string());
    assert_eq!(check_launch("", "/work/tree"), refused);
    assert_eq!(check_launch("code", ""), refused);
    assert_eq!(check_launch("", ""), refused);
    assert_eq!(check_launch("code", "/work/tree"), Ok(()));
}

#[test]
fn request_path_drops_the_slash_and_decodes() {
    assert_eq!(request_path("/icon.png"), Ok("icon.png".to_string()));
    assert_eq!(
        request_path("/%2FApplications%2FVisual%20Studio%20Code.app"),
        Ok("/Applications/Visual Studio Code.app".to_string())
    );
    assert_eq!(
        request_path("/C%3A/Program%20Files/x.exe"),
        Ok("C:/Program Files/x.exe".to_string())
    );
    assert_eq!(request_path("/a+b"), Ok("a+b".to_string()));
    assert_eq!(request_path("/caf%C3%A9.png"), Ok("caf\u{e9}.png".to_string()));
    assert_eq!(request_path("/100%"), Ok("100%".to_string()));
}

#[test]
fn request_path_of_short_paths() {
    assert_eq!(request_path("/"), Ok(String::new()));
    assert_eq!(request_path(""), Ok(String::new()));
    assert_eq!(request_path("\u{e9}x"), Ok("x".to_string()));
    assert_eq!(strip_lead("/a/b"), "a/b");
    assert_eq!(strip_lead("x"), "");
    assert_eq!(strip_lead(""), "");
}

#[test]
fn request_path_that_decodes_to_no_text_is_refused() {
    assert_eq!(
        request_path("/%FF%FE"),
        Err("Could not decode path '/%FF%FE'".to_string())
    );
    assert_eq!(
        decoded_request("/%FF", None),
        Err("Could not decode path '/%FF'".to_string())
    );
    assert_eq!(decoded_request("/a%20b", Some("a b".to_string())), Ok("a b".to_string()));
}

#[test]
fn programs_are_searched_for_only_on_windows() {
    assert!(needs_path_search(Platform::Windows, "code.exe", false));
    assert!(!needs_path_search(Platform::Windows, "code.exe", true));
    assert!(!needs_path_search(Platform::Windows, "code.ico", false));
    assert!(!needs_path_search(Platform::MacOs, "code.exe", false));
    assert!(!needs_path_search(Platform::Other, "code.exe", false));
}

#[test]
fn failures_of_a_request_name_the_path() {
    assert_eq!(
        executable_not_found("code.exe"),
        "Could not find executable 'code.exe' in system path"
    );
    assert_eq!(path_not_found("/no/where.png"), "Path does not exist '/no/where.png'");
    assert_eq!(failure_page("boom"), "Internal Server Error\n\nboom");
}

#[test]
fn bundle_icon_gets_the_extension_that_it_lacks() {
    assert_eq!(
        bundle_icon_path("/Applications/Terminal.app", &plist("Terminal", Some("Terminal"))),
        Ok("/Applications/Terminal.app/Contents/Resources/Terminal.icns".to_string())
    );
}

#[test]
fn bundle_icon_with_an_extension_keeps_it() {
    assert_eq!(
        bundle_icon_path("/Applications/Code.app", &plist("Electron", Some("Code.icns"))),
        Ok("/Applications/Code.app/Contents/Resources/Code.icns".to_string())
    );
    assert_eq!(
        bundle_icon_path("/A.app", &plist("a", Some("icon.png"))),
        Ok("/A.app/Contents/Resources/icon.png".to_string())
    );
}

#[test]
fn bundle_without_icon_is_refused() {
    assert_eq!(
        bundle_icon_path("/A.app", &plist("a", None)),
        Err("No CFBundleIconFile found in Info.plist".to_string())
    );
}

#[test]
fn media_types_go_by_the_ending() {
    assert_eq!(image_media_type("a.png"), Ok("image/png"));
    assert_eq!(image_media_type("a.jpg"), Ok("image/jpeg"));
    assert_eq!(image_media_type("a.jpeg"), Ok("image/jpeg"));
    assert_eq!(image_media_type("a.gif"), Ok("image/gif"));
    assert_eq!(image_media_type("a.svg"), Ok("image/svg+xml"));
}

#[test]
fn unknown_endings_have_no_media_type() {
    assert_eq!(image_media_type("a.bmp"), Err("Unknown image extensiona.bmp".to_string()));
    assert_eq!(image_media_type("a.PNG"), Err("Unknown image extensiona.PNG".to_string()));
    assert_eq!(image_media_type(""), Err("Unknown image extension".to_string()));
}

#[test]
fn icon_sources_depend_on_the_platform() {
    assert_eq!(icon_source(Platform::MacOs, "/x/Code.icns"), Ok(IconSource::AppleIcon));
    assert_eq!(icon_source(Platform::Windows, "C:/x/code.exe"), Ok(IconSource::SystemIcon));
    assert_eq!(icon_source(Platform::Windows, "C:/x/code.ico"), Ok(IconSource::SystemIcon));
    assert_eq!(
        icon_source(Platform::MacOs, "/x/logo.png"),
        Ok(IconSource::Image { media_type: "image/png" })
    );
    assert_eq!(
        icon_source(Platform::Other, "/x/logo.svg"),
        Ok(IconSource::Image { media_type: "image/svg+xml" })
    );
    assert_eq!(
        icon_source(Platform::Windows, "C:/x/Code.icns"),
        Err("Unknown image extensionC:/x/Code.icns".to_string())
    );
    assert_eq!(
        icon_source(Platform::MacOs, "/x/code.exe"),
        Err("Unknown image extension/x/code.exe".to_string())
    );
}

#[test]
fn converted_icons_are_png_images() {
    assert_eq!(IconSource::AppleIcon.media_type(), "image/png");
    assert_eq!(IconSource::SystemIcon.media_type(), "image/png");
    assert_eq!(IconSource::Image { media_type: "image/gif" }.media_type(), "image/gif");
}

#[test]
fn icon_formats_are_tried_from_the_medium_sizes() {
    assert_eq!(
        preferred_icon_formats(),
        vec![
            IconFormat::Rgba32x32At2x,
            IconFormat::Rgba64x64,
            IconFormat::Rgba128x128,
            IconFormat::Rgba128x128At2x,
            IconFormat::Rgba256x256,
            IconFormat::Rgba256x256At2x,
            IconFormat::Rgba512x512,
            IconFormat::Rgba512x512At2x,
            IconFormat::Rgba32x32,
            IconFormat::Rgba16x16At2x,
            IconFormat::Rgba16x16,
        ]
    );
}

#[test]
fn first_format_that_decodes_is_chosen() {
    let mut decodes = [false; 11];
    decodes[4] = true;
    decodes[9] = true;
    assert_eq!(choose_icon_format(&decodes), Ok(IconFormat::Rgba256x256));
    decodes[0] = true;
    assert_eq!(choose_icon_format(&decodes), Ok(IconFormat::Rgba32x32At2x));
    assert_eq!(choose_icon_format(&[false, false, true]), Ok(IconFormat::Rgba128x128));
    let mut last = [false; 11];
    last[10] = true;
    assert_eq!(choose_icon_format(&last), Ok(IconFormat::Rgba16x16));
}

#[test]
fn file_without_a_preferred_format_is_refused() {
    let refused = Err("No proper icon size found in icns file".to_string());
    assert_eq!(choose_icon_format(&[false; 11]), refused);
    assert_eq!(choose_icon_format(&[]), refused);
    let mut beyond = [false; 12];
    beyond[11] = true;
    assert_eq!(choose_icon_format(&beyond), refused);
}

fn action(name: &str, path: &str, icon: Option<&str>) -> Action {
    Action {
        name: name.to_string(),
        path: path.to_string(),
        icon: icon.map(|i| i.to_string()),
        arguments: None,
    }
}

#[test]
fn macos_offers_editor_finder_and_terminal() {
    let editor =
        action("Visual Studio Code", "/Applications/Visual Studio Code.app", None);
    let finder = action("Finder", "open", Some("/System/Library/CoreServices/Finder.app"));
    let terminal = action("Terminal", "/System/Applications/Utilities/Terminal.app", None);
    assert_eq!(
        get_default_actions(Platform::MacOs, true),
        vec![editor, finder.clone(), terminal.clone()]
    );
    assert_eq!(get_default_actions(Platform::MacOs, false), vec![finder, terminal]);
}

#[test]
fn windows_offers_editor_and_explorer() {
    let editor =
        action("Visual Studio Code", "C:/Program Files/Microsoft VS Code/Code.exe", None);
    let explorer = action("Explorer", "explorer.exe", None);
    assert_eq!(get_default_actions(Platform::Windows, true), vec![editor, explorer.clone()]);
    assert_eq!(get_default_actions(Platform::Windows, false), vec![explorer]);
}

#[test]
fn other_platforms_offer_nothing() {
    assert_eq!(get_default_actions(Platform::Other, true), Vec::<Action>::new());
    assert_eq!(get_default_actions(Platform::Other, false), Vec::<Action>::new());
    assert_eq!(editor_location(Platform::Other), None);
}

#[test]
fn editor_is_looked_for_where_it_installs() {
    assert_eq!(editor_location(Platform::MacOs), Some("/Applications/Visual Studio Code.app"));
    assert_eq!(
        editor_location(Platform::Windows),
        Some("C:/Program Files/Microsoft VS Code/Code.exe")
    );
}

fn entry(name: &str, is_dir: bool, has_git: bool) -> DirectoryEntry {
    DirectoryEntry {
        name: name.to_string(),
        path: format!("/work/{}", name),
        is_dir,
        has_git,
    }
}

fn found(name: &str) -> DirectoryResult {
    DirectoryResult { name: name.to_string(), path: format!("/work/{}", name) }
}

#[test]
fn scan_keeps_directories_that_hold_git() {
    let entries = [
        entry("alpha", true, true),
        entry("notes.txt", false, false),
        entry("plain", true, false),
        entry("beta", true, true),
        entry("odd", false, true),
    ];
    assert_eq!(scan_directory(&entries), vec![found("alpha"), found("beta")]);
}

#[test]
fn scan_of_nothing_finds_nothing() {
    assert_eq!(scan_directory(&[]), Vec::<DirectoryResult>::new());
    assert_eq!(scan_directory(&[entry("plain", true, false)]), Vec::<DirectoryResult>::new());
}

fn looking(platform: Platform, request_path: &str, icon_path: &str, searched: bool) -> IconRequest {
    IconRequest {
        platform,
        request_path: request_path.to_string(),
        icon_path: icon_path.to_string(),
        searched,
    }
}

#[test]
fn request_begins_with_a_look_at_the_decoded_path() {
    assert_eq!(
        IconRequest::begin(Platform::Other, "/%2Fhome%2Fme%2Flogo.png"),
        IconStep::Look(looking(Platform::Other, "/home/me/logo.png", "/home/me/logo.png", false))
    );
}

#[test]
fn request_that_does_not_decode_fails_at_once() {
    assert_eq!(
        IconRequest::begin(Platform::MacOs, "/%FF"),
        IconStep::Fail("Could not decode path '/%FF'".to_string())
    );
}

#[test]
fn image_that_is_there_is_loaded_with_its_media_type() {
    let request = looking(Platform::Other, "/home/me/logo.png", "/home/me/logo.png", false);
    assert_eq!(
        request.looked(true),
        IconStep::Load {
            path: "/home/me/logo.png".to_string(),
            source: IconSource::Image { media_type: "image/png" },
        }
    );
}

#[test]
fn path_that_is_not_there_fails() {
    let request = looking(Platform::MacOs, "/home/me/logo.png", "/home/me/logo.png", false);
    assert_eq!(
        request.looked(false),
        IconStep::Fail("Path does not exist '/home/me/logo.png'".to_string())
    );
    let program = looking(Platform::MacOs, "code.exe", "code.exe", false);
    assert_eq!(
        program.looked(false),
        IconStep::Fail("Path does not exist 'code.exe'".to_string())
    );
}

#[test]
fn path_with_an_unknown_ending_fails_once_it_is_found() {
    let request = looking(Platform::Other, "/home/me/notes.txt", "/home/me/notes.txt", false);
    assert_eq!(
        request.looked(true),
        IconStep::Fail("Unknown image extension/home/me/notes.txt".to_string())
    );
}

#[test]
fn missing_program_is_searched_for_on_windows() {
    let request = looking(Platform::Windows, "code.exe", "code.exe", false);
    assert_eq!(request.clone().looked(false), IconStep::Search(request.clone()));
    assert_eq!(
        request.clone().searched(Some("C:/Tools/code.exe".to_string())),
        IconStep::Look(looking(Platform::Windows, "code.exe", "C:/Tools/code.exe", true))
    );
    assert_eq!(
        request.searched(None),
        IconStep::Fail("Could not find executable 'code.exe' in system path".to_string())
    );
}

#[test]
fn program_that_was_searched_for_is_not_searched_for_again() {
    let found = looking(Platform::Windows, "code.exe", "C:/Tools/code.exe", true);
    assert_eq!(
        found.clone().looked(false),
        IconStep::Fail("Path does not exist 'code.exe'".to_string())
    );
    assert_eq!(
        found.looked(true),
        IconStep::Load { path: "C:/Tools/code.exe".to_string(), source: IconSource::SystemIcon }
    );
}

#[test]
fn program_that_is_there_needs_no_search() {
    let request = looking(Platform::Windows, "C:/x/code.exe", "C:/x/code.exe", false);
    assert_eq!(
        request.looked(true),
        IconStep::Load { path: "C:/x/code.exe".to_string(), source: IconSource::SystemIcon }
    );
}

#[test]
fn bundle_has_its_property_list_read() {
    let request = looking(Platform::MacOs, "/Applications/Code.app", "/Applications/Code.app", false);
    assert_eq!(request.clone().looked(true), IconStep::ReadList(request.clone()));
    assert_eq!(
        request.clone().listed(Ok(plist("Electron", Some("Code")))),
        IconStep::Load {
            path: "/Applications/Code.app/Contents/Resources/Code.icns".to_string(),
            source: IconSource::AppleIcon,
        }
    );
    assert_eq!(
        request.clone().listed(Ok(plist("Electron", Some("Code.png")))),
        IconStep::Load {
            path: "/Applications/Code.app/Contents/Resources/Code.png".to_string(),
            source: IconSource::Image { media_type: "image/png" },
        }
    );
    assert_eq!(
        request.clone().listed(Ok(plist("Electron", None))),
        IconStep::Fail("No CFBundleIconFile found in Info.plist".to_string())
    );
    assert_eq!(
        request.listed(Err("app_bundle is not a directory!".to_string())),
        IconStep::Fail("app_bundle is not a directory!".to_string())
    );
}

#[test]
fn bundle_is_only_looked_into_on_macos() {
    let request = looking(Platform::Other, "/opt/Code.app", "/opt/Code.app", false);
    assert_eq!(
        request.looked(true),
        IconStep::Fail("Unknown image extension/opt/Code.app".to_string())
    );
}

#[test]
fn apple_icon_file_is_converted_on_macos() {
    let request = looking(Platform::MacOs, "/x/Code.icns", "/x/Code.icns", false);
    assert_eq!(
        request.looked(true),
        IconStep::Load { path: "/x/Code.icns".to_string(), source: IconSource::AppleIcon }
    );
}

#[test]
fn launch_of_a_plain_program_starts_it_on_the_worktree() {
    assert_eq!(
        begin_launch(Platform::Windows, "C:/Tools/code.exe", "D:/work/tree"),
        LaunchStep::Start {
            program: "C:/Tools/code.exe".to_string(),
            worktree: "D:/work/tree".to_string(),
        }
    );
    assert_eq!(
        begin_launch(Platform::MacOs, "open", "/work/tree"),
        LaunchStep::Start { program: "open".to_string(), worktree: "/work/tree".to_string() }
    );
    assert_eq!(
        begin_launch(Platform::Other, "/opt/Thing.app", "/work/tree"),
        LaunchStep::Start {
            program: "/opt/Thing.app".to_string(),
            worktree: "/work/tree".to_string(),
        }
    );
}

#[test]
fn launch_without_application_or_worktree_is_refused() {
    let refused = LaunchStep::Refuse("app_path or worktree_path is empty!".to_string());
    assert_eq!(begin_launch(Platform::MacOs, "", "/work/tree"), refused);
    assert_eq!(begin_launch(Platform::MacOs, "/Applications/Code.app", ""), refused);
    assert_eq!(begin_launch(Platform::Windows, "", ""), refused);
}

#[test]
fn launch_of_a_bundle_reads_its_property_list_first() {
    assert_eq!(
        begin_launch(Platform::MacOs, "/Applications/Code.app", "/work/tree"),
        LaunchStep::ReadList { bundle: "/Applications/Code.app".to_string() }
    );
    assert_eq!(
        launch_listed(
            Platform::MacOs,
            "/Applications/Code.app",
            "/work/tree",
            Ok(plist("Electron", None))
        ),
        LaunchStep::Start {
            program: "/Applications/Code.app/Contents/MacOS/Electron".to_string(),
            worktree: "/work/tree".to_string(),
        }
    );
    assert_eq!(
        launch_listed(
            Platform::MacOs,
            "/Applications/Code.app",
            "/work/tree",
            Err("unreadable".to_string())
        ),
        LaunchStep::Refuse("unreadable".to_string())
    );
    assert_eq!(
        bundle_binary_path("/Applications/Code.app", &plist("Electron", None)),
        "/Applications/Code.app/Contents/MacOS/Electron"
    );
}
