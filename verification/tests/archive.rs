use kengine::archive::EngineArchive;
use kengine::archive::Source;

fn names(names: &[&str]) -> Vec<String> {
    names.iter().map(|name| name.to_string()).collect()
}

#[test]
fn archives_are_known_by_their_extension() {
    assert!(EngineArchive::validate_extension("pak"));
    assert!(EngineArchive::validate_extension("pk2"));
    assert!(EngineArchive::validate_extension("pk3"));
    assert!(EngineArchive::validate_extension("pk4"));
    assert!(!EngineArchive::validate_extension("pk5"));
    assert!(!EngineArchive::validate_extension("pk1"));
    assert!(!EngineArchive::validate_extension("zip"));
    assert!(!EngineArchive::validate_extension("PAK"));
    assert!(!EngineArchive::validate_extension(""));
    assert!(!EngineArchive::validate_extension(".pak"));
    assert!(!EngineArchive::validate_extension("pak "));
    assert!(!EngineArchive::validate_extension("pk"));
}

#[test]
fn file_of_no_archive_is_looked_for_on_disk() {
    let archive = EngineArchive::new();
    assert!(matches!(archive.locate("container2.png"), Source::LooseFile));
    let mut archive = EngineArchive::new();
    archive.add_archive("base/textures.pak", names(&["container2.png"]));
    assert!(matches!(archive.locate("container.png"), Source::LooseFile));
    assert!(matches!(archive.locate(""), Source::LooseFile));
    assert!(matches!(archive.locate("base/textures.pak"), Source::LooseFile));
}

#[test]
fn file_is_read_from_the_archive_that_holds_it() {
    let mut archive = EngineArchive::new();
    archive.add_archive("base/textures.pak", names(&["container2.png", "wall.png"]));
    archive.add_archive("base/shaders.pk3", names(&["vertex.vert", "fragment.frag"]));
    assert!(matches!(
        archive.locate("container2.png"),
        Source::Archive(path) if path == "base/textures.pak"
    ));
    assert!(matches!(archive.locate("wall.png"), Source::Archive(path) if path == "base/textures.pak"));
    assert!(matches!(archive.locate("vertex.vert"), Source::Archive(path) if path == "base/shaders.pk3"));
    assert!(matches!(
        archive.locate("fragment.frag"),
        Source::Archive(path) if path == "base/shaders.pk3"
    ));
}

#[test]
fn archive_added_last_wins() {
    let mut archive = EngineArchive::new();
    archive.add_archive("base/a.pak", names(&["shared.png", "only_a.png"]));
    archive.add_archive("base/b.pak", names(&["shared.png", "only_b.png"]));
    assert!(matches!(archive.locate("shared.png"), Source::Archive(path) if path == "base/b.pak"));
    assert!(matches!(archive.locate("only_a.png"), Source::Archive(path) if path == "base/a.pak"));
    assert!(matches!(archive.locate("only_b.png"), Source::Archive(path) if path == "base/b.pak"));
    archive.add_archive("base/a.pak", names(&["shared.png"]));
    assert!(matches!(archive.locate("shared.png"), Source::Archive(path) if path == "base/a.pak"));
}

#[test]
fn archive_without_files_changes_nothing() {
    let mut archive = EngineArchive::new();
    archive.add_archive("base/a.pak", names(&["one.png"]));
    archive.add_archive("base/empty.pak", names(&[]));
    assert!(matches!(archive.locate("one.png"), Source::Archive(path) if path == "base/a.pak"));
    assert!(matches!(archive.locate("two.png"), Source::LooseFile));
}
