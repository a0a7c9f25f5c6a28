//! Opening a workspace in the desktop app: the `ralph://open` URL with the
//! workspace path percent-encoded, and the command that hands it over.
use vstd::prelude::*;
use vstd::string::StringSliceAdditionalSpecFns;
use crate::text::{push_char, push_str};

verus! {

/// Bytes kept as they are: ASCII letters and digits, `-`, `_`, `.`, `~`, `/`.
pub open spec fn unreserved(b: u8) -> bool {
    (0x30 <= b && b <= 0x39) || (0x41 <= b && b <= 0x5a) || (0x61 <= b && b <= 0x7a) || b == 0x2d
        || b == 0x5f || b == 0x2e || b == 0x7e || b == 0x2f
}

/// The upper-case hexadecimal digit of `d < 16`.
pub open spec fn hex_digit(d: nat) -> char {
    if d < 10 {
        (('0' as u32) + d) as char
    } else {
        (('A' as u32) + (d - 10)) as char
    }
}

/// One byte, encoded: itself when unreserved, else `%` and two upper-case
/// hexadecimal digits.
pub open spec fn encode_byte(b: u8) -> Seq<char> {
    if unreserved(b) {
        seq![b as char]
    } else {
        seq!['%', hex_digit((b / 16) as nat), hex_digit((b % 16) as nat)]
    }
}

/// The bytes, each encoded, in order.
pub open spec fn percent_encoded(bytes: Seq<u8>) -> Seq<char>
    decreases bytes.len(),
{
    if bytes.len() == 0 {
        Seq::empty()
    } else {
        percent_encoded(bytes.drop_last()) + encode_byte(bytes.last())
    }
}

/// The value of a hexadecimal digit (either case); 0 for other characters.
pub open spec fn hex_value(c: char) -> int {
    if '0' <= c && c <= '9' {
        (c as int) - ('0' as int)
    } else if 'A' <= c && c <= 'F' {
        (c as int) - ('A' as int) + 10
    } else if 'a' <= c && c <= 'f' {
        (c as int) - ('a' as int) + 10
    } else {
        0
    }
}

/// Percent-decoding: `%` and two hexadecimal digits give the byte they
/// spell; any other character gives its own code as a byte.
pub open spec fn percent_decoded(s: Seq<char>) -> Seq<u8>
    decreases s.len(),
{
    if s.len() == 0 {
        Seq::empty()
    } else if s[0] == '%' && s.len() >= 3 {
        seq![(hex_value(s[1]) * 16 + hex_value(s[2])) as u8] + percent_decoded(s.skip(3))
    } else {
        seq![(s[0] as u32) as u8] + percent_decoded(s.skip(1))
    }
}

/// The encoding read from the front: the first byte's code, then the rest.
proof fn lemma_encoded_front(bytes: Seq<u8>)
    requires
        bytes.len() > 0,
    ensures
        percent_encoded(bytes) == encode_byte(bytes[0]) + percent_encoded(bytes.skip(1)),
    decreases bytes.len(),
{
    if bytes.len() == 1 {
        assert(bytes.drop_last() =~= Seq::<u8>::empty());
        assert(bytes.skip(1) =~= Seq::<u8>::empty());
        assert(percent_encoded(bytes) =~= encode_byte(bytes[0]) + percent_encoded(bytes.skip(1)));
    } else {
        let d = bytes.drop_last();
        lemma_encoded_front(d);
        assert(d.skip(1) =~= bytes.skip(1).drop_last());
        assert(bytes.skip(1).last() == bytes.last());
        assert(percent_encoded(bytes) =~= encode_byte(bytes[0]) + percent_encoded(bytes.skip(1)));
    }
}

/// Decoding one encoded byte ahead of more text gives that byte first.
proof fn lemma_decode_one(b: u8, rest: Seq<char>)
    ensures
        percent_decoded(encode_byte(b) + rest) == seq![b] + percent_decoded(rest),
{
    let e = encode_byte(b);
    let s = e + rest;
    assert(s.skip(e.len() as int) =~= rest);
    if unreserved(b) {
        assert(s[0] == b as char);
        assert(s[0] != '%');
        assert(((b as char) as u32) as u8 == b);
    } else {
        let hi = (b / 16) as nat;
        let lo = (b % 16) as nat;
        assert(hex_value(hex_digit(hi)) == hi);
        assert(hex_value(hex_digit(lo)) == lo);
        assert(s[1] == hex_digit(hi));
        assert(s[2] == hex_digit(lo));
        assert(hi * 16 + lo == b as int) by (nonlinear_arith)
            requires
                hi == b / 16,
                lo == b % 16,
        ;
    }
}

/// Decoding an encoded byte string gives the bytes back.
pub proof fn law_percent_decode_inverts_encode(bytes: Seq<u8>)
    ensures
        percent_decoded(percent_encoded(bytes)) == bytes,
    decreases bytes.len(),
{
    if bytes.len() == 0 {
        assert(percent_encoded(bytes) =~= Seq::<char>::empty());
    } else {
        lemma_encoded_front(bytes);
        law_percent_decode_inverts_encode(bytes.skip(1));
        lemma_decode_one(bytes[0], percent_encoded(bytes.skip(1)));
        assert(bytes =~= seq![bytes[0]] + bytes.skip(1));
    }
}

fn hex_char(d: u8) -> (c: char)
    requires
        d < 16,
    ensures
        c == hex_digit(d as nat),
{
    if d < 10 {
        (('0' as u8) + d) as char
    } else {
        (('A' as u8) + (d - 10)) as char
    }
}

/// Percent-encodes bytes for a URL query value.
pub fn percent_encode(input: &[u8]) -> (r: String)
    ensures
        r@ == percent_encoded(input@),
{
    let mut r = String::new();
    let mut i: usize = 0;
    assert(input@.take(0) =~= Seq::<u8>::empty());
    while i < input.len()
        invariant
            i <= input@.len(),
            r@ == percent_encoded(input@.take(i as int)),
        decreases input.len() - i,
    {
        let b = input[i];
        let ghost t = input@.take(i + 1);
        assert(t.drop_last() =~= input@.take(i as int));
        assert(t.last() == b);
        let keep = (0x30 <= b && b <= 0x39) || (0x41 <= b && b <= 0x5a) || (0x61 <= b && b <= 0x7a)
            || b == 0x2d || b == 0x5f || b == 0x2e || b == 0x7e || b == 0x2f;
        let ghost before = r@;
        if keep {
            push_char(&mut r, b as char);
            assert(r@ =~= before + encode_byte(b));
        } else {
            push_char(&mut r, '%');
            push_char(&mut r, hex_char(b / 16));
            push_char(&mut r, hex_char(b % 16));
            assert(r@ =~= before + encode_byte(b));
        }
        i = i + 1;
    }
    assert(input@.take(i as int) =~= input@);
    r
}

/// Percent-encodes a path, byte by byte of its UTF-8 form.
pub fn percent_encode_path(path: &str) -> (r: String)
    ensures
        r@ == percent_encoded(path.spec_bytes()),
{
    let bytes = path.as_bytes_vec();
    percent_encode(bytes.as_slice())
}

/// The URL that opens `workspace` in the app.
pub open spec fn open_url(workspace: &str) -> Seq<char> {
    "ralph://open?workspace="@ + percent_encoded(workspace.spec_bytes())
}

/// How the app is addressed.
#[derive(Debug, Clone)]
pub enum LaunchTarget {
    /// An installed app bundle at this path.
    AppPath(String),
    /// An app found by bundle identifier.
    BundleId(String),
}

/// A program and its arguments.
#[derive(Debug, Clone)]
pub struct OpenCommandSpec {
    pub program: String,
    pub args: Vec<String>,
}

/// `osascript` telling the app at `app_path` to open `url`; `open -b` for
/// a bundle identifier.
pub open spec fn url_command(target: LaunchTarget, url: Seq<char>) -> (Seq<char>, Seq<Seq<char>>) {
    match target {
        LaunchTarget::AppPath(path) => (
            "osascript"@,
            seq![
                "-e"@,
                "on run argv"@,
                "-e"@,
                "tell application (item 1 of argv) to open location (item 2 of argv)"@,
                "-e"@,
                "end run"@,
                path@,
                url,
            ],
        ),
        LaunchTarget::BundleId(id) => ("open"@, seq!["-b"@, id@, url]),
    }
}

/// The command that hands the workspace URL to the app.
pub fn plan_url_command(workspace: &str, target: &LaunchTarget) -> (r: OpenCommandSpec)
    ensures
        (r.program@, r.args@.map_values(|a: String| a@)) == url_command(*target, open_url(workspace)),
{
    let mut url = String::from_str("ralph://open?workspace=");
    let encoded = percent_encode_path(workspace);
    push_str(&mut url, encoded.as_str());
    match target {
        LaunchTarget::AppPath(path) => {
            let args = vec![
                String::from_str("-e"),
                String::from_str("on run argv"),
                String::from_str("-e"),
                String::from_str("tell application (item 1 of argv) to open location (item 2 of argv)"),
                String::from_str("-e"),
                String::from_str("end run"),
                path.clone(),
                url,
            ];
            let r = OpenCommandSpec { program: String::from_str("osascript"), args };
            assert(r.args@.map_values(|a: String| a@) =~= url_command(*target, open_url(workspace)).1);
            r
        },
        LaunchTarget::BundleId(id) => {
            let args = vec![String::from_str("-b"), id.clone(), url];
            let r = OpenCommandSpec { program: String::from_str("open"), args };
            assert(r.args@.map_values(|a: String| a@) =~= url_command(*target, open_url(workspace)).1);
            r
        },
    }
}

} // verus!
