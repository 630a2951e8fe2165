use vstd::prelude::*;
use vstd::arithmetic::power::pow;
use vstd::string::*;

use crate::stream::text_view;

verus! {

/// The characters of `s`, one per element.
pub fn chars_of(s: &str) -> (r: Vec<char>)
    ensures
        r@ == s@,
{
    let mut out: Vec<char> = Vec::new();
    for c in it: s.chars()
        invariant
            out@ == it.seq().take(it.index() as int),
    {
        out.push(c);
    }
    out
}

/// Whether `char::is_alphanumeric` holds of `c` (Unicode Alphabetic or Numeric).
pub uninterp spec fn is_alphanumeric(c: char) -> bool;

/// Relies on `char::is_alphanumeric`: true of the characters that are alphabetic or
/// numeric in Unicode.
#[verifier::external_body]
pub(crate) fn alphanumeric(c: char) -> (r: bool)
    ensures
        r == is_alphanumeric(c),
{
    c.is_alphanumeric()
}

/// At most `len` characters of `s`, from character `start` on.
pub open spec fn char_window(s: Seq<char>, start: int, len: int) -> Seq<char> {
    let from = if start <= s.len() { start } else { s.len() as int };
    let to = if from + len <= s.len() { from + len } else { s.len() as int };
    s.subrange(from, to)
}

/// Character-wise slicing of text.
pub trait StringUtils: Sized {
    spec fn text(&self) -> Seq<char>;

    /// At most `len` characters, from character `start` on.
    fn substring(&self, start: usize, len: usize) -> (r: Self)
        ensures
            r.text() == char_window(self.text(), start as int, len as int),
    ;
}

impl StringUtils for String {
    open spec fn text(&self) -> Seq<char> {
        self@
    }

    fn substring(&self, start: usize, len: usize) -> (r: Self) {
        let n = self.as_str().unicode_len();
        let from = if start <= n {
            start
        } else {
            n
        };
        let to = if len <= n - from {
            from + len
        } else {
            n
        };
        self.as_str().substring_char(from, to).to_owned()
    }
}

/// The lower-case hexadecimal digit of `d`.
pub open spec fn hex_char(d: int) -> char {
    seq!['0', '1', '2', '3', '4', '5', '6', '7', '8', '9', 'a', 'b', 'c', 'd', 'e', 'f'][d]
}

/// The 32 hexadecimal digits of `v`, most significant first.
pub open spec fn hex_digits(v: u128) -> Seq<char> {
    Seq::new(32, |k: int| hex_char((v as int / pow(16, (31 - k) as nat)) % 16))
}

/// The hyphenated form of a UUID's value: its digits in groups of 8, 4, 4, 4 and 12.
pub open spec fn hyphenated(v: u128) -> Seq<char> {
    let d = hex_digits(v);
    d.subrange(0, 8) + seq!['-'] + d.subrange(8, 12) + seq!['-'] + d.subrange(12, 16) + seq!['-']
        + d.subrange(16, 20) + seq!['-'] + d.subrange(20, 32)
}

/// The 128-bit value that `Uuid::as_u128` reads out of a UUID.
pub uninterp spec fn uuid_value(u: uuid::Uuid) -> u128;

#[verifier::external_type_specification]
#[verifier::external_body]
pub struct ExUuid(uuid::Uuid);

/// Relies on `uuid::Uuid::as_u128`: the UUID's bytes read as one big-endian value.
pub assume_specification[ uuid::Uuid::as_u128 ](u: &uuid::Uuid) -> (r: u128)
    ensures
        r == uuid_value(*u),
;

/// Relies on `uuid::Uuid::from_u128` and the `Display` of `Uuid`: the hyphenated form in
/// lower case.
#[verifier::external_body]
fn hyphenated_text(v: u128) -> (r: String)
    ensures
        r@ == hyphenated(v),
{
    uuid::Uuid::from_u128(v).to_string()
}

/// Short forms of identifiers.
pub trait UuidUtils {
    spec fn spec_text(&self) -> Seq<char>;

    /// The first `len` characters of the identifier's text.
    fn shorten(&self, len: usize) -> (r: String)
        ensures
            r@ == char_window(self.spec_text(), 0, len as int),
    ;
}

impl UuidUtils for uuid::Uuid {
    open spec fn spec_text(&self) -> Seq<char> {
        hyphenated(uuid_value(*self))
    }

    fn shorten(&self, len: usize) -> (r: String) {
        let text = hyphenated_text(self.as_u128());
        text.substring(0, len)
    }
}

/// The text that names the file type of a file name: what follows its last dot, where
/// that dot is not its first character.
pub open spec fn extension_of(name: Seq<char>) -> Option<Seq<char>> {
    if exists|i: int| 0 < i < name.len() && name[i] == '.' {
        let i = choose|i: int|
            0 < i < name.len() && name[i] == '.' && forall|j: int| i < j < name.len() ==> name[j] != '.';
        Some(name.skip(i + 1))
    } else {
        None
    }
}

/// What follows the last dot of a file name, where that dot is not its first character.
pub fn file_extension(name: &str) -> (r: Option<String>)
    ensures
        text_view(r) == extension_of(name@),
{
    let c = chars_of(name);
    let n = c.len();
    let mut k: usize = n;
    while k > 1
        invariant
            k <= n,
            n == name@.len(),
            c@ == name@,
            forall|j: int| k <= j < n ==> name@[j] != '.',
        decreases k,
    {
        if c[k - 1] == '.' {
            let i = k - 1;
            proof {
                let w = choose|w: int|
                    0 < w < name@.len() && name@[w] == '.' && forall|j: int|
                        w < j < name@.len() ==> name@[j] != '.';
                if w < i {
                    assert(name@[i as int] == '.');
                } else if w > i {
                }
            }
            return Some(name.substring_char(k, n).to_owned());
        }
        k = k - 1;
    }
    None
}

/// Compression of a file, told by its name.
#[derive(Clone, Copy, Debug, PartialEq, Eq, Structural)]
pub enum Compression {
    Gzip,
    Bzip,
    Lzma,
    No,
}

/// The compression that a file extension stands for.
pub open spec fn compression_for(ext: Option<Seq<char>>) -> Compression {
    match ext {
        Some(e) => if e == "gz"@ {
            Compression::Gzip
        } else if e == "bz"@ || e == "bz2"@ {
            Compression::Bzip
        } else if e == "lzma"@ {
            Compression::Lzma
        } else {
            Compression::No
        },
        None => Compression::No,
    }
}

/// The compression of a file, from the extension of its name; none where the
/// extension is not known.
pub fn compression_of(file_name: &str) -> (r: Compression)
    ensures
        r == compression_for(extension_of(file_name@)),
{
    match file_extension(file_name) {
        Some(e) => if e == "gz".to_owned() {
            Compression::Gzip
        } else if e == "bz".to_owned() || e == "bz2".to_owned() {
            Compression::Bzip
        } else if e == "lzma".to_owned() {
            Compression::Lzma
        } else {
            Compression::No
        },
        None => Compression::No,
    }
}

} // verus!
