use ftb2pack::catalog::{FTBModpackList, Memory, Modpack, ModpackArt, ModpackStats, ModpackVersion};
use ftb2pack::session::Browser;

fn version(id: i64, name: &str) -> ModpackVersion {
    ModpackVersion {
        id,
        name: name.to_string(),
        kind: "release".to_string(),
        minecraft: "1.20.1".to_string(),
        loader: "47.0".to_string(),
        loader_type: "forge".to_string(),
        memory: Memory { min: 4096, recommended: 8192 },
    }
}

fn modpack(id: i64, name: &str, logo: Option<&str>, versions: Vec<ModpackVersion>) -> Modpack {
    Modpack {
        id,
        slug: name.to_lowercase().replace(' ', "-"),
        name: name.to_string(),
        synopsis: String::new(),
        kind: "modpack".to_string(),
        versions,
        art: ModpackArt { background: None, logo: logo.map(|l| l.to_string()) },
        stats: ModpackStats { plays: 0, installs: 0, plays_14d: 0 },
        featured: false,
        tags: vec![],
        released: 0,
        updated: 0,
    }
}

fn catalog() -> FTBModpackList {
    FTBModpackList {
        success: true,
        packs: vec![
            modpack(1, "Alpha Pack", Some("https://img.example.com/a.png"), vec![version(10, "1.0"), version(11, "1.1")]),
            modpack(2, "Beta", None, vec![]),
        ],
    }
}

#[test]
fn default_catalog_is_empty() {
    let c = FTBModpackList::default();
    assert!(!c.success);
    assert!(c.packs.is_empty());
}

#[test]
fn title_text() {
    assert_eq!(Browser::new(catalog()).title(), "FTB 2 Modpack");
}

#[test]
fn selecting_picks_first_version_and_returns_logo() {
    let mut b = Browser::new(catalog());
    let logo = b.select_modpack(0);
    assert_eq!(logo.as_deref(), Some("https://img.example.com/a.png"));
    assert_eq!(b.selected, Some(0));
    assert_eq!(b.selected_version.as_deref(), Some("1.0"));
    assert_eq!(b.selected_version_id(), Some(10));
}

#[test]
fn selecting_pack_without_versions() {
    let mut b = Browser::new(catalog());
    b.select_modpack(0);
    assert_eq!(b.select_modpack(1), None);
    assert_eq!(b.selected, Some(1));
    assert_eq!(b.selected_version, None);
    assert_eq!(b.selected_version_id(), None);
}

#[test]
fn selecting_out_of_range_keeps_selection() {
    let mut b = Browser::new(catalog());
    b.select_modpack(0);
    assert_eq!(b.select_modpack(5), None);
    assert_eq!(b.selected, Some(0));
}

#[test]
fn selection_is_locked_while_installing() {
    let mut b = Browser::new(catalog());
    b.select_modpack(0);
    b.begin_download();
    assert_eq!(b.select_modpack(1), None);
    assert_eq!(b.selected, Some(0));
    b.finish_download();
    b.select_modpack(1);
    assert_eq!(b.selected, Some(1));
}

#[test]
fn choosing_a_version() {
    let mut b = Browser::new(catalog());
    b.select_modpack(0);
    b.choose_version("1.1".to_string());
    assert_eq!(b.selected_version_id(), Some(11));
    b.choose_version("9.9".to_string());
    assert_eq!(b.selected_version_id(), None);
}

#[test]
fn project_site_address() {
    let c = catalog();
    assert_eq!(c.packs[0].project_site(), "https://www.feed-the-beast.com/modpacks/1-alpha-pack");
}

#[test]
fn first_version_lookup() {
    let c = catalog();
    assert_eq!(c.packs[0].first_version().as_deref(), Some("1.0"));
    assert_eq!(c.packs[1].first_version(), None);
    assert_eq!(c.packs[0].version_id(&"1.1".to_string()), Some(11));
}
