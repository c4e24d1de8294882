//! The version descriptor model: the files, targets and specs of one
//! installable version of a modpack.

use vstd::prelude::*;

verus! {

/// A version of a modpack as the remote service describes it.
#[derive(Debug, Clone)]
pub struct Pack {
    pub files: Vec<File>,
    pub specs: Specs,
    pub targets: Vec<Target>,
    pub installs: i64,
    pub refreshed: i64,
    pub changelog: String,
    pub parent: i64,
    pub notification: String,
    pub links: Vec<String>,
    pub status: String,
    pub id: i64,
    pub name: String,
    pub kind: String,
    pub updated: i64,
    pub private: bool,
}

/// Minimum and recommended memory of a version.
#[derive(Debug, Clone, Copy, PartialEq, Eq, Structural)]
pub struct Specs {
    pub id: i64,
    pub minimum: i64,
    pub recommended: i64,
}

/// A platform, loader or game declaration of a version.
#[derive(Debug, Clone)]
pub struct Target {
    pub version: String,
    pub id: i64,
    pub name: String,
    pub kind: String,
    pub updated: i64,
}

/// A reference into the upstream mod registry.
#[derive(Debug, Clone, Copy, PartialEq, Eq, Structural)]
pub struct CurseForge {
    pub project: i64,
    pub file: i64,
}

/// One file of a version.
#[derive(Debug, Clone)]
pub struct File {
    pub version: String,
    /// Relative directory of the file inside the install.
    pub path: String,
    /// Download location; absent or blank means the file is not fetched.
    pub url: Option<String>,
    pub mirrors: Option<Vec<String>>,
    pub sha1: String,
    pub size: i64,
    pub tags: Vec<String>,
    pub clientonly: bool,
    pub serveronly: bool,
    pub optional: bool,
    pub id: u64,
    pub name: String,
    pub kind: String,
    pub updated: i64,
    pub curseforge: Option<CurseForge>,
}

/// The mathematical value of a [`Target`].
pub struct TargetView {
    pub version: Seq<char>,
    pub id: i64,
    pub name: Seq<char>,
    pub kind: Seq<char>,
    pub updated: i64,
}

/// The mathematical value of a [`File`].
pub struct FileView {
    pub version: Seq<char>,
    pub path: Seq<char>,
    pub url: Option<Seq<char>>,
    pub mirrors: Option<Seq<Seq<char>>>,
    pub sha1: Seq<char>,
    pub size: i64,
    pub tags: Seq<Seq<char>>,
    pub clientonly: bool,
    pub serveronly: bool,
    pub optional: bool,
    pub id: u64,
    pub name: Seq<char>,
    pub kind: Seq<char>,
    pub updated: i64,
    pub curseforge: Option<CurseForge>,
}

/// The mathematical value of a [`Pack`].
pub struct PackView {
    pub files: Seq<FileView>,
    pub specs: Specs,
    pub targets: Seq<TargetView>,
    pub installs: i64,
    pub refreshed: i64,
    pub changelog: Seq<char>,
    pub parent: i64,
    pub notification: Seq<char>,
    pub links: Seq<Seq<char>>,
    pub status: Seq<char>,
    pub id: i64,
    pub name: Seq<char>,
    pub kind: Seq<char>,
    pub updated: i64,
    pub private: bool,
}

impl View for Target {
    type V = TargetView;

    open spec fn view(&self) -> TargetView {
        TargetView {
            version: self.version@,
            id: self.id,
            name: self.name@,
            kind: self.kind@,
            updated: self.updated,
        }
    }
}

impl View for File {
    type V = FileView;

    open spec fn view(&self) -> FileView {
        FileView {
            version: self.version@,
            path: self.path@,
            url: self.url.deep_view(),
            mirrors: self.mirrors.deep_view(),
            sha1: self.sha1@,
            size: self.size,
            tags: self.tags.deep_view(),
            clientonly: self.clientonly,
            serveronly: self.serveronly,
            optional: self.optional,
            id: self.id,
            name: self.name@,
            kind: self.kind@,
            updated: self.updated,
            curseforge: self.curseforge,
        }
    }
}

impl View for Pack {
    type V = PackView;

    open spec fn view(&self) -> PackView {
        PackView {
            files: self.files@.map_values(|f: File| f@),
            specs: self.specs,
            targets: self.targets@.map_values(|t: Target| t@),
            installs: self.installs,
            refreshed: self.refreshed,
            changelog: self.changelog@,
            parent: self.parent,
            notification: self.notification@,
            links: self.links.deep_view(),
            status: self.status@,
            id: self.id,
            name: self.name@,
            kind: self.kind@,
            updated: self.updated,
            private: self.private,
        }
    }
}

/// Whether `s` holds exactly the characters of `lit`.
pub fn text_is(s: &String, lit: &str) -> (r: bool)
    ensures
        r == (s@ == lit@),
{
    let t = String::from_str(lit);
    s.eq(&t)
}

} // verus!
