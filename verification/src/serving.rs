//! Serving a request for an icon, one look at the disk at a time.
//!
//! The library cannot look at the disk.  It asks the caller to: each
//! [`IconStep`] says what to find out, and the caller hands what it found to
//! the method of [`IconRequest`] that the step names.  The last step says
//! which file holds the image and how to get at it, or why there is none.

use crate::icons::{
    bundle_icon_of, bundle_icon_path, executable_not_found, icon_source, needs_path_search,
    needs_search, path_missing, path_not_found, request_path, requested, search_failed,
    source_of, IconSource, SourceModel,
};
use crate::launcher::{needs_bundle, needs_bundle_info, AppPlist, Platform};
use vstd::prelude::*;

verus! {

/// A request for an icon, as far as it has been answered.
#[derive(Clone, Debug, PartialEq, Eq)]
pub struct IconRequest {
    /// The platform that the request is served on.
    pub platform: Platform,
    /// The path that was asked for.
    pub request_path: String,
    /// The path at which the icon is looked for.
    pub icon_path: String,
    /// Whether `icon_path` comes from a search for `request_path`.
    pub searched: bool,
}

/// The mathematical value of an [`IconRequest`].
pub struct RequestModel {
    pub platform: Platform,
    pub request_path: Seq<char>,
    pub icon_path: Seq<char>,
    pub searched: bool,
}

impl View for IconRequest {
    type V = RequestModel;

    open spec fn view(&self) -> RequestModel {
        RequestModel {
            platform: self.platform,
            request_path: self.request_path@,
            icon_path: self.icon_path@,
            searched: self.searched,
        }
    }
}

/// What the caller does next for a request.
#[derive(Clone, Debug, PartialEq, Eq)]
pub enum IconStep {
    /// Find out whether `icon_path` is on disk and call
    /// [`IconRequest::looked`].
    Look(IconRequest),
    /// Search the program `icon_path` on the search path and call
    /// [`IconRequest::searched`].
    Search(IconRequest),
    /// Read the property list of the bundle `request_path` and call
    /// [`IconRequest::listed`].
    ReadList(IconRequest),
    /// Answer with the image that `source` makes of the file at `path`.
    Load { path: String, source: IconSource },
    /// Answer with the failure that `0` describes.
    Fail(String),
}

/// The mathematical value of an [`IconStep`].
pub enum StepModel {
    Look(RequestModel),
    Search(RequestModel),
    ReadList(RequestModel),
    Load { path: Seq<char>, source: SourceModel },
    Fail(Seq<char>),
}

impl View for IconStep {
    type V = StepModel;

    open spec fn view(&self) -> StepModel {
        match *self {
            IconStep::Look(request) => StepModel::Look(request@),
            IconStep::Search(request) => StepModel::Search(request@),
            IconStep::ReadList(request) => StepModel::ReadList(request@),
            IconStep::Load { path, source } => StepModel::Load { path: path@, source: source@ },
            IconStep::Fail(message) => StepModel::Fail(message@),
        }
    }
}

impl StepModel {
    /// How many further steps a request may take at most.  Every answer of
    /// the caller leads to a step of a lower rank, so a request is through
    /// after four answers.
    pub open spec fn rank(self) -> nat {
        match self {
            StepModel::Look(request) => if request.searched {
                2
            } else {
                4
            },
            StepModel::Search(_) => 3,
            StepModel::ReadList(_) => 1,
            StepModel::Load { .. } => 0,
            StepModel::Fail(_) => 0,
        }
    }
}

impl RequestModel {
    /// The first step of a request for `uri_path`: a look at the path that
    /// it decodes to.
    pub open spec fn begin(platform: Platform, uri_path: Seq<char>) -> StepModel {
        match requested(uri_path) {
            Ok(path) => StepModel::Look(
                RequestModel { platform, request_path: path, icon_path: path, searched: false },
            ),
            Err(message) => StepModel::Fail(message),
        }
    }

    /// The last step: the image comes from `icon_path`.
    pub open spec fn load(self) -> StepModel {
        match source_of(self.platform, self.icon_path) {
            Ok(source) => StepModel::Load { path: self.icon_path, source },
            Err(message) => StepModel::Fail(message),
        }
    }

    /// The step after `icon_path` was found on disk: the icon of a bundle is
    /// named by its property list, every other path holds the image itself.
    pub open spec fn found(self) -> StepModel {
        if needs_bundle(self.platform, self.request_path) {
            StepModel::ReadList(self)
        } else {
            self.load()
        }
    }

    /// The step after a look at `icon_path`.  A program that is not there is
    /// searched for, once; anything else that is not there fails.
    pub open spec fn looked(self, exists: bool) -> StepModel {
        if !self.searched && needs_search(self.platform, self.icon_path, exists) {
            StepModel::Search(self)
        } else if !exists {
            StepModel::Fail(path_missing(self.request_path))
        } else {
            self.found()
        }
    }

    /// The step after a search: a look at what was found.
    pub open spec fn searched(self, found: Option<Seq<char>>) -> StepModel {
        match found {
            Some(path) => StepModel::Look(
                RequestModel { icon_path: path, searched: true, ..self },
            ),
            None => StepModel::Fail(search_failed(self.request_path)),
        }
    }

    /// The step after the property list of the bundle was read, or could not
    /// be read.
    pub open spec fn listed(self, info: Result<AppPlist, String>) -> StepModel {
        match info {
            Ok(list) => match bundle_icon_of(self.request_path, list) {
                Ok(path) => RequestModel { icon_path: path, ..self }.load(),
                Err(message) => StepModel::Fail(message),
            },
            Err(message) => StepModel::Fail(message@),
        }
    }
}

impl IconRequest {
    /// Takes up the request for `uri_path`.
    pub fn begin(platform: Platform, uri_path: &str) -> (step: IconStep)
        ensures
            step@ == RequestModel::begin(platform, uri_path@),
    {
        match request_path(uri_path) {
            Ok(path) => {
                let icon_path = path.clone();
                IconStep::Look(
                    IconRequest { platform, request_path: path, icon_path, searched: false },
                )
            },
            Err(message) => IconStep::Fail(message),
        }
    }

    fn load(self) -> (step: IconStep)
        ensures
            step@ == self@.load(),
    {
        match icon_source(self.platform, self.icon_path.as_str()) {
            Ok(source) => IconStep::Load { path: self.icon_path, source },
            Err(message) => IconStep::Fail(message),
        }
    }

    fn found(self) -> (step: IconStep)
        ensures
            step@ == self@.found(),
    {
        if needs_bundle_info(self.platform, self.request_path.as_str()) {
            IconStep::ReadList(self)
        } else {
            self.load()
        }
    }

    /// Goes on after a look at `icon_path`, which is on disk or not.
    pub fn looked(self, exists: bool) -> (step: IconStep)
        ensures
            step@ == self@.looked(exists),
            step@.rank() < StepModel::Look(self@).rank(),
    {
        if !self.searched && needs_path_search(self.platform, self.icon_path.as_str(), exists) {
            IconStep::Search(self)
        } else if !exists {
            IconStep::Fail(path_not_found(self.request_path.as_str()))
        } else {
            self.found()
        }
    }

    /// Goes on after a search for the program, which found it at a path or
    /// nowhere.
    pub fn searched(self, found: Option<String>) -> (step: IconStep)
        ensures
            step@ == self@.searched(
                match found {
                    Some(path) => Some(path@),
                    None => None,
                },
            ),
            step@.rank() < StepModel::Search(self@).rank(),
    {
        match found {
            Some(path) => IconStep::Look(
                IconRequest {
                    platform: self.platform,
                    request_path: self.request_path,
                    icon_path: path,
                    searched: true,
                },
            ),
            None => IconStep::Fail(executable_not_found(self.request_path.as_str())),
        }
    }

    /// Goes on after the property list of the bundle was read, or could not
    /// be read.
    pub fn listed(self, info: Result<AppPlist, String>) -> (step: IconStep)
        ensures
            step@ == self@.listed(info),
            step@.rank() < StepModel::ReadList(self@).rank(),
    {
        match info {
            Ok(list) => match bundle_icon_path(self.request_path.as_str(), &list) {
                Ok(path) => {
                    let request = IconRequest {
                        platform: self.platform,
                        request_path: self.request_path,
                        icon_path: path,
                        searched: self.searched,
                    };
                    request.load()
                },
                Err(message) => IconStep::Fail(message),
            },
            Err(message) => IconStep::Fail(message),
        }
    }
}

} // verus!
