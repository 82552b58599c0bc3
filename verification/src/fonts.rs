//! The font files that a book conversion uses. A font is known by its key;
//! its regular face must be on disk, the other faces are used where they
//! are.

use vstd::prelude::*;
use crate::text::{chars_of, join_path, joined, lowercase_of, spells, to_lowercase};

verus! {

/// Where the four faces of a font would be.
#[derive(Debug, PartialEq, Eq)]
pub struct FontFiles {
    pub regular: String,
    pub bold: String,
    pub italic: String,
    pub bold_italic: String,
}

/// The view of [`FontFiles`]: the same value over texts and numbers.
pub struct FontFilesView {
    pub regular: Seq<char>,
    pub bold: Seq<char>,
    pub italic: Seq<char>,
    pub bold_italic: Seq<char>,
}

impl View for FontFiles {
    type V = FontFilesView;

    open spec fn view(&self) -> FontFilesView {
        FontFilesView {
            regular: self.regular@,
            bold: self.bold@,
            italic: self.italic@,
            bold_italic: self.bold_italic@,
        }
    }
}

/// Which of the four faces of a font are on disk.
#[derive(Debug, Clone, Copy, PartialEq, Eq, Structural)]
pub struct FontPresence {
    pub regular: bool,
    pub bold: bool,
    pub italic: bool,
    pub bold_italic: bool,
}

/// The faces of a font to convert with.
#[derive(Debug, PartialEq, Eq)]
pub struct FontPaths {
    pub regular: Option<String>,
    pub bold: Option<String>,
    pub italic: Option<String>,
    pub bold_italic: Option<String>,
}

/// The view of [`FontPaths`]: the same value over texts and numbers.
pub struct FontPathsView {
    pub regular: Option<Seq<char>>,
    pub bold: Option<Seq<char>>,
    pub italic: Option<Seq<char>>,
    pub bold_italic: Option<Seq<char>>,
}

/// The view of a path that may be absent.
pub open spec fn path_view(path: Option<String>) -> Option<Seq<char>> {
    match path {
        Some(p) => Some(p@),
        None => None,
    }
}

impl View for FontPaths {
    type V = FontPathsView;

    open spec fn view(&self) -> FontPathsView {
        FontPathsView {
            regular: path_view(self.regular),
            bold: path_view(self.bold),
            italic: path_view(self.italic),
            bold_italic: path_view(self.bold_italic),
        }
    }
}

/// Whether a lowercase key names a font that the service has.
pub open spec fn is_known_font(lower: Seq<char>) -> bool {
    lower == "bookerly"@
}

/// Where the faces of the font would be under `fonts_dir`.
pub open spec fn font_files_in(fonts_dir: Seq<char>) -> FontFilesView {
    FontFilesView {
        regular: joined(fonts_dir, "Bookerly.ttf"@),
        bold: joined(fonts_dir, "Bookerly Bold.ttf"@),
        italic: joined(fonts_dir, "Bookerly Italic.ttf"@),
        bold_italic: joined(fonts_dir, "Bookerly Bold Italic.ttf"@),
    }
}

/// A path where its file is present.
pub open spec fn where_present(path: Seq<char>, present: bool) -> Option<Seq<char>> {
    if present {
        Some(path)
    } else {
        None
    }
}

/// The faces to convert with, given which are on disk: none at all without
/// the regular face.
pub open spec fn font_paths_of(files: FontFilesView, present: FontPresence) -> Option<
    FontPathsView,
> {
    if present.regular {
        Some(
            FontPathsView {
                regular: Some(files.regular),
                bold: where_present(files.bold, present.bold),
                italic: where_present(files.italic, present.italic),
                bold_italic: where_present(files.bold_italic, present.bold_italic),
            },
        )
    } else {
        None
    }
}

/// Where the faces of the font named by a lowercase key would be under
/// `fonts_dir`, or `None` for a key that names no font.
pub fn font_files_from_lowercase(lower: &str, fonts_dir: &str) -> (files: Option<FontFiles>)
    ensures
        match files {
            Some(f) => is_known_font(lower@) && f@ == font_files_in(fonts_dir@),
            None => !is_known_font(lower@),
        },
{
    let chars = chars_of(lower);
    if spells(&chars, "bookerly") {
        Some(
            FontFiles {
                regular: join_path(fonts_dir, "Bookerly.ttf"),
                bold: join_path(fonts_dir, "Bookerly Bold.ttf"),
                italic: join_path(fonts_dir, "Bookerly Italic.ttf"),
                bold_italic: join_path(fonts_dir, "Bookerly Bold Italic.ttf"),
            },
        )
    } else {
        None
    }
}

/// Where the faces of the font named by `font_key`, in any case, would be
/// under `fonts_dir`, or `None` for a key that names no font.
pub fn font_files(font_key: &str, fonts_dir: &str) -> (files: Option<FontFiles>)
    ensures
        match files {
            Some(f) => is_known_font(lowercase_of(font_key@)) && f@ == font_files_in(fonts_dir@),
            None => !is_known_font(lowercase_of(font_key@)),
        },
{
    let lower = to_lowercase(font_key);
    font_files_from_lowercase(lower.as_str(), fonts_dir)
}

/// The path where its file is present.
fn keep_if(path: String, present: bool) -> (kept: Option<String>)
    ensures
        path_view(kept) == where_present(path@, present),
{
    if present {
        Some(path)
    } else {
        None
    }
}

/// The faces to convert with, of the files of a font and which of them
/// are on disk.
pub fn select_font_paths(files: FontFiles, present: FontPresence) -> (paths: Option<FontPaths>)
    ensures
        match paths {
            Some(p) => font_paths_of(files@, present) == Some(p@),
            None => font_paths_of(files@, present) is None,
        },
{
    if !present.regular {
        return None;
    }
    Some(
        FontPaths {
            regular: Some(files.regular),
            bold: keep_if(files.bold, present.bold),
            italic: keep_if(files.italic, present.italic),
            bold_italic: keep_if(files.bold_italic, present.bold_italic),
        },
    )
}

/// Resolves the font of a request: the faces of the font that `font_key`
/// names, in any case, under `fonts_dir`, given which of them are on disk.
/// There is none for a key that names no font, and none without the
/// regular face.
pub fn resolve_font_paths(font_key: &str, fonts_dir: &str, present: FontPresence) -> (paths:
    Option<FontPaths>)
    ensures
        match paths {
            Some(p) => is_known_font(lowercase_of(font_key@)) && font_paths_of(
                font_files_in(fonts_dir@),
                present,
            ) == Some(p@),
            None => !is_known_font(lowercase_of(font_key@)) || !present.regular,
        },
{
    match font_files(font_key, fonts_dir) {
        Some(files) => select_font_paths(files, present),
        None => None,
    }
}

} // verus!
