//! The modpack catalog: the list of packs the service offers, each with
//! its versions.

use vstd::prelude::*;
use crate::text::{decimal, decimal_of};

verus! {

/// The location of the modpack catalog.
pub const FTB_API_URL: &'static str = "https://meta.feed-the-beast.com/v1/modpacks";

/// The base location of the project pages of modpacks.
pub const PROJECT_SITE_URL: &'static str = "https://www.feed-the-beast.com/modpacks/";

/// The catalog of modpacks.
#[derive(Debug)]
pub struct FTBModpackList {
    pub success: bool,
    pub packs: Vec<Modpack>,
}

/// Why the catalog could not be had.
#[derive(Debug, Clone, Copy, PartialEq, Eq, Structural)]
pub enum FTBModpackError {
    IoError,
    ApiError,
    FormatError,
}

/// One modpack of the catalog.
#[derive(Debug, Clone)]
pub struct Modpack {
    pub id: i64,
    pub slug: String,
    pub name: String,
    pub synopsis: String,
    pub kind: String,
    pub versions: Vec<ModpackVersion>,
    pub art: ModpackArt,
    pub stats: ModpackStats,
    pub featured: bool,
    pub tags: Vec<String>,
    pub released: i64,
    pub updated: i64,
}

/// One version of a modpack, as the catalog lists it.
#[derive(Debug, Clone)]
pub struct ModpackVersion {
    pub id: i64,
    pub name: String,
    pub kind: String,
    pub minecraft: String,
    pub loader: String,
    pub loader_type: String,
    pub memory: Memory,
}

/// Memory needs of a version.
#[derive(Debug, Clone, Copy, PartialEq, Eq, Structural)]
pub struct Memory {
    pub min: i64,
    pub recommended: i64,
}

/// Images of a modpack.
#[derive(Debug, Clone)]
pub struct ModpackArt {
    pub background: Option<String>,
    pub logo: Option<String>,
}

/// Usage figures of a modpack.
#[derive(Debug, Clone, Copy, PartialEq, Eq, Structural)]
pub struct ModpackStats {
    pub plays: i64,
    pub installs: i64,
    pub plays_14d: i64,
}

impl Default for FTBModpackList {
    /// An empty, unsuccessful catalog.
    fn default() -> (r: FTBModpackList)
        ensures
            !r.success,
            r.packs@.len() == 0,
    {
        FTBModpackList { success: false, packs: Vec::new() }
    }
}

/// The id of the first version named `name`, if any.
pub open spec fn version_id_for(vs: Seq<ModpackVersion>, name: Seq<char>) -> Option<i64>
    decreases vs.len(),
{
    if vs.len() == 0 {
        None
    } else if vs[0].name@ == name {
        Some(vs[0].id)
    } else {
        version_id_for(vs.drop_first(), name)
    }
}

/// The name of the first version, if any.
pub open spec fn first_version_name(vs: Seq<ModpackVersion>) -> Option<Seq<char>> {
    if vs.len() == 0 {
        None
    } else {
        Some(vs[0].name@)
    }
}

/// `<PROJECT_SITE_URL><id>-<slug>`.
pub open spec fn project_site_of(id: int, slug: Seq<char>) -> Seq<char> {
    PROJECT_SITE_URL@ + decimal_of(id) + "-"@ + slug
}

impl Modpack {
    /// The id of the first version of this pack named `name`.
    pub fn version_id(&self, name: &String) -> (r: Option<i64>)
        ensures
            r == version_id_for(self.versions@, name@),
    {
        let vs = &self.versions;
        let mut i: usize = 0;
        assert(vs@.subrange(0, vs@.len() as int) =~= vs@);
        while i < vs.len()
            invariant
                vs == &self.versions,
                i <= vs@.len(),
                version_id_for(vs@.subrange(i as int, vs@.len() as int), name@)
                    == version_id_for(vs@, name@),
            decreases vs.len() - i,
        {
            let ghost rest = vs@.subrange(i as int, vs@.len() as int);
            assert(rest[0] == vs@[i as int]);
            if vs[i].name.eq(name) {
                return Some(vs[i].id);
            }
            assert(rest.drop_first() =~= vs@.subrange(i + 1, vs@.len() as int));
            i = i + 1;
        }
        None
    }

    /// The name of the first version of this pack, if it has any.
    pub fn first_version(&self) -> (r: Option<String>)
        ensures
            r.deep_view() == first_version_name(self.versions@),
    {
        if self.versions.len() == 0 {
            None
        } else {
            Some(self.versions[0].name.clone())
        }
    }

    /// The address of this pack's project page.
    pub fn project_site(&self) -> (r: String)
        ensures
            r@ == project_site_of(self.id as int, self.slug@),
    {
        String::from_str(PROJECT_SITE_URL).concat(decimal(self.id).as_str()).concat("-").concat(
            self.slug.as_str(),
        )
    }
}

} // verus!
