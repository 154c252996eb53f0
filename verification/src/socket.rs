//! The path of the Unix socket a compositor listens on.
use std::path::Path;
use std::path::PathBuf;
use vstd::prelude::*;
use vstd::utf8::{decode_utf8, valid_utf8};

verus! {

/// `std::path::PathBuf`, carried through as it is.
#[verifier::external_type_specification]
#[verifier::external_body]
pub struct ExPathBuf(PathBuf);

/// `std::path::Path`, carried through as it is.
#[verifier::external_type_specification]
#[verifier::external_body]
pub struct ExPath(Path);

/// The bytes that an owned path holds (its encoded form, which is UTF-8 wherever
/// the path is valid Unicode).
pub uninterp spec fn path_buf_bytes(p: PathBuf) -> Seq<u8>;

/// The bytes that a borrowed path holds.
pub uninterp spec fn path_bytes(p: &Path) -> Seq<u8>;

/// The text of a path's bytes where they are valid UTF-8.
pub open spec fn path_chars(bytes: Seq<u8>) -> Option<Seq<char>> {
    if valid_utf8(bytes) {
        Some(decode_utf8(bytes))
    } else {
        None
    }
}

/// `Clone::clone` of a `PathBuf`: a copy that holds the same bytes.
pub assume_specification[<PathBuf as Clone>::clone](p: &PathBuf) -> (r: PathBuf)
    ensures
        path_buf_bytes(r) == path_buf_bytes(*p),
;

/// The path of a compositor's Wayland socket (such as `/tmp/wayland-0`).
#[derive(Debug, Clone)]
pub struct Socket(pub PathBuf);

impl From<PathBuf> for Socket {
    fn from(path: PathBuf) -> (s: Self) {
        Socket(path)
    }
}

impl vstd::std_specs::convert::FromSpecImpl<PathBuf> for Socket {
    open spec fn obeys_from_spec() -> bool {
        true
    }

    open spec fn from_spec(path: PathBuf) -> Self {
        Socket(path)
    }
}

/// The borrowed path of a `PathBuf` (`PathBuf::as_path`): it holds the same bytes.
#[verifier::external_body]
fn borrow_path(p: &PathBuf) -> (r: &Path)
    ensures
        path_bytes(r) == path_buf_bytes(*p),
{
    p.as_path()
}

/// The path as text (`Path::to_str`): `Some` exactly when the path is valid Unicode,
/// then with the characters that its bytes encode.
#[verifier::external_body]
fn path_text(p: &PathBuf) -> (r: Option<&str>)
    ensures
        match r {
            Some(t) => path_chars(path_buf_bytes(*p)) == Some(t@),
            None => path_chars(path_buf_bytes(*p)) is None,
        },
{
    p.to_str()
}

/// The path as it is displayed (`Path::display`, written with `format!`): for a
/// valid Unicode path, the characters that its bytes encode. For other paths the
/// documentation only says that the conversion may be lossy, depending on the
/// platform, so nothing is stated of them.
#[verifier::external_body]
fn displayed_path(p: &PathBuf) -> (r: String)
    ensures
        path_chars(path_buf_bytes(*p)) matches Some(t) ==> r@ == t,
{
    format!("{}", p.display())
}

impl std::ops::Deref for Socket {
    type Target = Path;

    /// The socket's path, holding the same bytes.
    fn deref(&self) -> (r: &Path)
        ensures
            path_bytes(r) == path_buf_bytes(self.0),
    {
        borrow_path(&self.0)
    }
}

impl AsRef<str> for Socket {
    /// The path as text; the empty text where it is not valid Unicode.
    fn as_ref(&self) -> (r: &str)
        ensures
            r@ == (match path_chars(path_buf_bytes(self.0)) {
                Some(t) => t,
                None => Seq::<char>::empty(),
            }),
    {
        match path_text(&self.0) {
            Some(t) => t,
            None => {
                proof {
                    reveal_strlit("");
                }
                ""
            },
        }
    }
}

impl Socket {
    /// The path as it is displayed: its text, where it is valid Unicode.
    pub fn to_display_string(&self) -> (s: String)
        ensures
            path_chars(path_buf_bytes(self.0)) matches Some(t) ==> s@ == t,
    {
        displayed_path(&self.0)
    }
}

} // verus!
