//! The portable package manifest, and how it is built from a version
//! descriptor.

use vstd::prelude::*;
use crate::install::OVERRIDES_DIR;
use crate::pack::{Pack, Target, TargetView, FileView, PackView, text_is};

verus! {

/// The package descriptor written beside the overrides.
#[derive(Debug, Clone)]
pub struct Manifest {
    pub minecraft: Minecraft,
    pub manifest_type: String,
    pub manifest_version: i64,
    pub name: String,
    pub version: String,
    pub author: String,
    pub files: Vec<File>,
    pub overrides: String,
}

/// The game version and the loaders of a manifest.
#[derive(Debug, Clone)]
pub struct Minecraft {
    pub version: String,
    pub mod_loaders: Vec<ModLoaders>,
}

/// One loader entry of a manifest.
#[derive(Debug, Clone)]
pub struct ModLoaders {
    pub id: String,
    pub primary: bool,
}

/// One dependency of a manifest: a file of the mod registry.
#[derive(Debug, Clone, Copy, PartialEq, Eq, Structural)]
pub struct File {
    pub project_id: i64,
    pub file_id: i64,
    pub required: bool,
}

/// The mathematical value of a [`ModLoaders`].
pub struct LoaderView {
    pub id: Seq<char>,
    pub primary: bool,
}

/// The mathematical value of a [`Manifest`].
pub struct ManifestView {
    pub game_version: Seq<char>,
    pub mod_loaders: Seq<LoaderView>,
    pub manifest_type: Seq<char>,
    pub manifest_version: i64,
    pub name: Seq<char>,
    pub version: Seq<char>,
    pub author: Seq<char>,
    pub files: Seq<File>,
    pub overrides: Seq<char>,
}

impl View for ModLoaders {
    type V = LoaderView;

    open spec fn view(&self) -> LoaderView {
        LoaderView { id: self.id@, primary: self.primary }
    }
}

impl View for Manifest {
    type V = ManifestView;

    open spec fn view(&self) -> ManifestView {
        ManifestView {
            game_version: self.minecraft.version@,
            mod_loaders: self.minecraft.mod_loaders@.map_values(|l: ModLoaders| l@),
            manifest_type: self.manifest_type@,
            manifest_version: self.manifest_version,
            name: self.name@,
            version: self.version@,
            author: self.author@,
            files: self.files@,
            overrides: self.overrides@,
        }
    }
}

/// A file of a version becomes a dependency when it is a mod with a
/// registry reference.
pub open spec fn is_dependency(f: FileView) -> bool {
    f.kind == "mod"@ && f.curseforge is Some
}

/// The dependency entry of a file with a registry reference.
pub open spec fn dependency_of(f: FileView) -> File {
    File {
        project_id: f.curseforge->0.project,
        file_id: f.curseforge->0.file,
        required: true,
    }
}

/// The dependencies of a file list, in the order of the list.
pub open spec fn dependencies(files: Seq<FileView>) -> Seq<File>
    decreases files.len(),
{
    if files.len() == 0 {
        Seq::empty()
    } else {
        let rest = dependencies(files.drop_last());
        if is_dependency(files.last()) {
            rest.push(dependency_of(files.last()))
        } else {
            rest
        }
    }
}

/// A target that names the game itself.
pub open spec fn is_game(t: TargetView) -> bool {
    t.kind == "game"@ && t.name == "minecraft"@
}

/// A target that names a mod loader.
pub open spec fn is_modloader(t: TargetView) -> bool {
    t.kind == "modloader"@
}

/// The game version: that of the first game target, else `unknown`.
pub open spec fn game_version(ts: Seq<TargetView>) -> Seq<char>
    decreases ts.len(),
{
    if ts.len() == 0 {
        "unknown"@
    } else if is_game(ts[0]) {
        ts[0].version
    } else {
        game_version(ts.drop_first())
    }
}

/// The loader entry of a mod loader target: `<name>-<version>`, primary.
pub open spec fn loader_of(t: TargetView) -> LoaderView {
    LoaderView { id: t.name + "-"@ + t.version, primary: true }
}

/// The loader entries of a target list, in the order of the list.
pub open spec fn loaders(ts: Seq<TargetView>) -> Seq<LoaderView>
    decreases ts.len(),
{
    if ts.len() == 0 {
        Seq::empty()
    } else {
        let rest = loaders(ts.drop_last());
        if is_modloader(ts.last()) {
            rest.push(loader_of(ts.last()))
        } else {
            rest
        }
    }
}

/// The manifest of a version descriptor.
pub open spec fn translation(p: PackView) -> ManifestView {
    ManifestView {
        game_version: game_version(p.targets),
        mod_loaders: loaders(p.targets),
        manifest_type: "minecraftModpack"@,
        manifest_version: 1,
        name: "Modpack"@,
        version: p.name,
        author: "FTB2Pack"@,
        files: dependencies(p.files),
        overrides: "overrides"@,
    }
}

/// The dependency entries of `files`, in their order.
pub fn dependency_files(files: &Vec<crate::pack::File>) -> (r: Vec<File>)
    ensures
        r@ == dependencies(files@.map_values(|f: crate::pack::File| f@)),
{
    let ghost fv = files@.map_values(|f: crate::pack::File| f@);
    let mut out: Vec<File> = Vec::new();
    let mut i: usize = 0;
    while i < files.len()
        invariant
            i <= files.len(),
            fv == files@.map_values(|f: crate::pack::File| f@),
            out@ == dependencies(fv.subrange(0, i as int)),
        decreases files.len() - i,
    {
        let f = &files[i];
        assert(fv.subrange(0, i + 1).drop_last() =~= fv.subrange(0, i as int));
        assert(fv.subrange(0, i + 1).last() == f@);
        if text_is(&f.kind, "mod") {
            match f.curseforge {
                Some(cf) => {
                    out.push(File { project_id: cf.project, file_id: cf.file, required: true });
                },
                None => {},
            }
        }
        i = i + 1;
    }
    assert(fv.subrange(0, files.len() as int) =~= fv);
    out
}

/// The version of the first target that names the game, else `unknown`.
pub fn game_version_of(targets: &Vec<Target>) -> (r: String)
    ensures
        r@ == game_version(targets@.map_values(|t: Target| t@)),
{
    let ghost tv = targets@.map_values(|t: Target| t@);
    assert(tv.subrange(0, tv.len() as int) =~= tv);
    let mut i: usize = 0;
    while i < targets.len()
        invariant
            i <= targets.len(),
            tv == targets@.map_values(|t: Target| t@),
            game_version(tv.subrange(i as int, tv.len() as int)) == game_version(tv),
        decreases targets.len() - i,
    {
        let t = &targets[i];
        let ghost rest = tv.subrange(i as int, tv.len() as int);
        assert(rest[0] == t@);
        if text_is(&t.kind, "game") && text_is(&t.name, "minecraft") {
            return t.version.clone();
        }
        assert(rest.drop_first() =~= tv.subrange(i + 1, tv.len() as int));
        i = i + 1;
    }
    String::from_str("unknown")
}

/// The loader entries of the mod loader targets, in their order.
pub fn loader_entries(targets: &Vec<Target>) -> (r: Vec<ModLoaders>)
    ensures
        r@.map_values(|l: ModLoaders| l@) == loaders(targets@.map_values(|t: Target| t@)),
{
    let ghost tv = targets@.map_values(|t: Target| t@);
    let mut out: Vec<ModLoaders> = Vec::new();
    let mut i: usize = 0;
    while i < targets.len()
        invariant
            i <= targets.len(),
            tv == targets@.map_values(|t: Target| t@),
            out@.map_values(|l: ModLoaders| l@) == loaders(tv.subrange(0, i as int)),
        decreases targets.len() - i,
    {
        let t = &targets[i];
        assert(tv.subrange(0, i + 1).drop_last() =~= tv.subrange(0, i as int));
        assert(tv.subrange(0, i + 1).last() == t@);
        if text_is(&t.kind, "modloader") {
            let id = t.name.clone().concat("-").concat(t.version.as_str());
            let ghost before = out@;
            out.push(ModLoaders { id, primary: true });
            assert(out@ =~= before.push(ModLoaders { id, primary: true }));
            assert(out@.map_values(|l: ModLoaders| l@) =~= before.map_values(
                |l: ModLoaders| l@,
            ).push(loader_of(t@)));
        }
        i = i + 1;
    }
    assert(tv.subrange(0, targets.len() as int) =~= tv);
    out
}

impl Manifest {
    /// The manifest of a version descriptor.
    pub fn translate(v: Pack) -> (r: Manifest)
        ensures
            r@ == translation(v@),
    {
        let files = dependency_files(&v.files);
        let version = game_version_of(&v.targets);
        let mod_loaders = loader_entries(&v.targets);
        let m = Manifest {
            files,
            author: String::from_str("FTB2Pack"),
            manifest_type: String::from_str("minecraftModpack"),
            manifest_version: 1,
            name: String::from_str("Modpack"),
            version: v.name,
            minecraft: Minecraft { version, mod_loaders },
            overrides: String::from_str(OVERRIDES_DIR),
        };
        m
    }

    /// The manifest of a version descriptor, as a conversion that never
    /// fails.
    pub fn try_from(v: Pack) -> (r: Result<Manifest, ()>)
        ensures
            r is Ok,
            r->Ok_0@ == translation(v@),
    {
        Ok(Manifest::translate(v))
    }
}

/// The translation is a function of the descriptor: two descriptors with
/// the same value give manifests with the same value.
pub proof fn lemma_translate_deterministic(a: Pack, b: Pack, ma: Manifest, mb: Manifest)
    requires
        a@ == b@,
        ma@ == translation(a@),
        mb@ == translation(b@),
    ensures
        ma@ == mb@,
{
}

/// The dependencies of a file list are exactly its mod files with a
/// registry reference, in the order of the list; so there are as many of
/// them as there are such files.
pub proof fn lemma_dependencies_are_filtered(files: Seq<FileView>)
    ensures
        dependencies(files) == files.filter(|f: FileView| is_dependency(f)).map_values(
            |f: FileView| dependency_of(f),
        ),
        dependencies(files).len() == files.filter(|f: FileView| is_dependency(f)).len(),
    decreases files.len(),
{
    reveal(Seq::filter);
    let p = |f: FileView| is_dependency(f);
    let d = |f: FileView| dependency_of(f);
    if files.len() > 0 {
        let rest = files.drop_last();
        lemma_dependencies_are_filtered(rest);
        if is_dependency(files.last()) {
            rest.filter(p).lemma_push_map_commute(d, files.last());
        }
    }
}

/// Without a target naming the game, the game version is `unknown`.
pub proof fn lemma_no_game_target_is_unknown(ts: Seq<TargetView>)
    requires
        forall|i: int| 0 <= i < ts.len() ==> !is_game(#[trigger] ts[i]),
    ensures
        game_version(ts) == "unknown"@,
    decreases ts.len(),
{
    if ts.len() > 0 {
        assert(!is_game(ts[0]));
        let rest = ts.drop_first();
        assert forall|i: int| 0 <= i < rest.len() implies !is_game(#[trigger] rest[i]) by {
            assert(rest[i] == ts[i + 1]);
        }
        lemma_no_game_target_is_unknown(rest);
    }
}

/// The loader entries are exactly the mod loader targets, each as
/// `<name>-<version>` marked primary, in the order of the targets.
pub proof fn lemma_loaders_are_filtered(ts: Seq<TargetView>)
    ensures
        loaders(ts) == ts.filter(|t: TargetView| is_modloader(t)).map_values(
            |t: TargetView| loader_of(t),
        ),
        loaders(ts).len() == ts.filter(|t: TargetView| is_modloader(t)).len(),
        forall|j: int| 0 <= j < loaders(ts).len() ==> (#[trigger] loaders(ts)[j]).primary,
        forall|i: int|
            0 <= i < ts.len() && is_modloader(#[trigger] ts[i]) ==> loaders(ts).contains(
                loader_of(ts[i]),
            ),
    decreases ts.len(),
{
    reveal(Seq::filter);
    let p = |t: TargetView| is_modloader(t);
    let l = |t: TargetView| loader_of(t);
    if ts.len() > 0 {
        let rest = ts.drop_last();
        lemma_loaders_are_filtered(rest);
        if is_modloader(ts.last()) {
            rest.filter(p).lemma_push_map_commute(l, ts.last());
        }
    }
    assert forall|i: int| 0 <= i < ts.len() && is_modloader(#[trigger] ts[i]) implies loaders(
        ts,
    ).contains(loader_of(ts[i])) by {
        ts.lemma_filter_contains(p, i);
        let k = choose|k: int| 0 <= k < ts.filter(p).len() && ts.filter(p)[k] == ts[i];
        assert(loaders(ts)[k] == loader_of(ts[i]));
    }
}

} // verus!
