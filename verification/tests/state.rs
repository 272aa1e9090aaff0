use luma::state::{Link, Luma, OpenCommand, OpenCommandError};

#[test]
fn a_new_link_has_name_and_target_only() {
    let link = Link::new("Rust", "https://www.rust-lang.org");
    assert_eq!(link.name, "Rust");
    assert_eq!(link.link, "https://www.rust-lang.org");
    assert_eq!(link.file, None);
    assert_eq!(link.desc, None);
    assert_eq!(link.artist, None);
    assert_eq!(link.color, None);
}

#[test]
fn a_stub_is_empty() {
    let link = Link::stub();
    assert_eq!(link.name, "");
    assert_eq!(link.link, "");
    assert_eq!(link.file, None);
    assert_eq!(link.desc, None);
    assert_eq!(link.artist, None);
    assert_eq!(link.color, None);
    assert_eq!(link, Link::default());
}

fn collection() -> Luma {
    Luma {
        tabs: vec![
            (String::from("code"), vec![Link::new("a", "x"), Link::new("b", "y")]),
            (String::from("empty"), vec![]),
            (String::from("music"), vec![Link::new("c", "z")]),
        ],
    }
}

#[test]
fn the_cursor_finds_the_link_under_it() {
    let luma = collection();
    assert_eq!(luma.selected(0, 0), Some(&Link::new("a", "x")));
    assert_eq!(luma.selected(0, 1), Some(&Link::new("b", "y")));
    assert_eq!(luma.selected(2, 0), Some(&Link::new("c", "z")));
}

#[test]
fn the_cursor_may_be_on_nothing() {
    let luma = collection();
    assert_eq!(luma.selected(0, 2), None);
    assert_eq!(luma.selected(1, 0), None);
    assert_eq!(luma.selected(3, 0), None);
    assert_eq!(luma.selected(usize::MAX, usize::MAX), None);
    assert_eq!(Luma::default().selected(0, 0), None);
    assert!(Luma::default().tabs.is_empty());
}

#[test]
fn the_target_follows_the_arguments() {
    let command = OpenCommand::new("mpv", &["--no-video", "--loop"]);
    assert_eq!(command.name, "mpv");
    assert_eq!(command.args, ["--no-video", "--loop"]);
    assert_eq!(command.arguments("song.ogg"), vec!["--no-video", "--loop", "song.ogg"]);
    let bare = OpenCommand::new("xdg-open", &[]);
    assert_eq!(bare.arguments("https://example.org"), vec!["https://example.org"]);
    assert_eq!(bare.arguments(""), vec![""]);
}

#[test]
fn a_failed_start_reads_as_such() {
    assert_eq!(OpenCommandError.message(), "failed to spawn command");
}
