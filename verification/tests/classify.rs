use anne::filetypes::{ComicCompression, Filetype};

#[test]
fn classify_epub_upper_and_lower() {
    assert_eq!(Filetype::from_path("shelf/Dune.EPUB"), Filetype::EPub);
    assert_eq!(Filetype::from_path("shelf/Dune.epub"), Filetype::EPub);
    assert_eq!(Filetype::from_path("shelf/Dune.ePuB"), Filetype::EPub);
}

#[test]
fn classify_whole_table() {
    assert_eq!(Filetype::from_path("a.epub"), Filetype::EPub);
    assert_eq!(Filetype::from_path("a.djvu"), Filetype::DjVu);
    assert_eq!(Filetype::from_path("a.DJVU"), Filetype::DjVu);
    assert_eq!(
        Filetype::from_path("a.cbz"),
        Filetype::Comic(ComicCompression::Zip)
    );
    assert_eq!(
        Filetype::from_path("a.cbr"),
        Filetype::Comic(ComicCompression::Rar)
    );
    assert_eq!(
        Filetype::from_path("a.cb7"),
        Filetype::Comic(ComicCompression::SevenZ)
    );
    assert_eq!(
        Filetype::from_path("a.cbt"),
        Filetype::Comic(ComicCompression::Tar)
    );
}

#[test]
fn classify_no_extension_is_unknown() {
    assert_eq!(Filetype::from_path("noextension"), Filetype::Unknown);
    assert_eq!(Filetype::from_path(""), Filetype::Unknown);
    assert_eq!(Filetype::from_path("dir/noextension"), Filetype::Unknown);
    assert_eq!(Filetype::from_path(".hidden"), Filetype::Unknown);
    assert_eq!(Filetype::from_path("dir.d/noextension"), Filetype::Unknown);
}

#[test]
fn classify_unrecognized_extension_is_unknown() {
    assert_eq!(Filetype::from_path("a.pdf"), Filetype::Unknown);
    assert_eq!(Filetype::from_path("a.epub.bak"), Filetype::Unknown);
    assert_eq!(Filetype::from_path("trailingdot."), Filetype::Unknown);
}
