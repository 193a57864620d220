//! Classification of user input into HTTP URLs, magnet links and torrent
//! file paths, and the display name each one shows.

use vstd::prelude::*;

verus! {

use crate::text::{lowered, trimmed};
use crate::util::{chars_to_string, lower_chars, string_chars, trim_chars};
use vstd::string::StringExecFns;
use vstd::string::StrSliceExecFns;

/// A recognised download input.
#[derive(Debug, Clone)]
pub enum ParsedInput {
    /// HTTP or HTTPS URL.
    Http(String),
    /// Magnet link.
    Magnet(String),
    /// Path to a torrent metafile.
    TorrentFile(String),
}

/// The shape of a recognised input, without its text.
#[derive(Debug, Clone, Copy, PartialEq, Eq, Structural)]
pub enum InputKind {
    Http,
    Magnet,
    TorrentFile,
}

/// Why an input string was rejected.
#[derive(Debug, Clone, Copy, PartialEq, Eq)]
pub enum InputError {
    /// The input was empty after trimming.
    Empty,
    /// The input named a torrent file that does not exist.
    TorrentFileNotFound,
    /// The input fits no recognised shape.
    Unrecognized,
}

/// The shape and text a `ParsedInput` carries.
pub open spec fn parsed_view(p: ParsedInput) -> (InputKind, Seq<char>) {
    match p {
        ParsedInput::Http(u) => (InputKind::Http, u@),
        ParsedInput::Magnet(u) => (InputKind::Magnet, u@),
        ParsedInput::TorrentFile(u) => (InputKind::TorrentFile, u@),
    }
}

/// Whether `pat` occurs in `s` starting at `i`.
pub open spec fn is_match_at(s: Seq<char>, pat: Seq<char>, i: int) -> bool {
    0 <= i && i + pat.len() <= s.len() && s.subrange(i, i + pat.len() as int) == pat
}

/// The first index at or after `i` where `pat` occurs in `s`.
pub open spec fn find_from(s: Seq<char>, pat: Seq<char>, i: int) -> Option<int>
    recommends
        0 <= i,
    decreases s.len() - i + 1,
{
    if i + pat.len() > s.len() || i < 0 {
        None
    } else if is_match_at(s, pat, i) {
        Some(i)
    } else {
        find_from(s, pat, i + 1)
    }
}

/// Whether `s` starts with `pat`.
pub open spec fn starts_with(s: Seq<char>, pat: Seq<char>) -> bool {
    pat.len() <= s.len() && s.take(pat.len() as int) == pat
}

/// Whether `s` ends with `pat`.
pub open spec fn ends_with(s: Seq<char>, pat: Seq<char>) -> bool {
    pat.len() <= s.len() && s.skip(s.len() - pat.len()) == pat
}

/// Whether `c` occurs in `s`.
pub open spec fn contains_char(s: Seq<char>, c: char) -> bool {
    exists|i: int| 0 <= i < s.len() && s[i] == c
}

/// The part of `s` after its last `.`: the whole of `s` when no dot
/// occurs.
pub open spec fn last_dot_suffix(s: Seq<char>) -> Seq<char>
    decreases s.len(),
{
    if s.len() == 0 {
        s
    } else if s.last() == '.' {
        Seq::empty()
    } else {
        last_dot_suffix(s.drop_last()).push(s.last())
    }
}

/// File extensions that keep a bare dotted name from being read as a
/// domain.
pub open spec fn denied_extension(e: Seq<char>) -> bool {
    ||| e == "txt"@
    ||| e == "log"@
    ||| e == "csv"@
    ||| e == "json"@
    ||| e == "xml"@
    ||| e == "yml"@
    ||| e == "yaml"@
    ||| e == "toml"@
    ||| e == "ini"@
    ||| e == "cfg"@
    ||| e == "conf"@
    ||| e == "md"@
    ||| e == "rst"@
    ||| e == "zip"@
    ||| e == "tar"@
    ||| e == "gz"@
    ||| e == "bz2"@
    ||| e == "xz"@
    ||| e == "7z"@
    ||| e == "rar"@
    ||| e == "pdf"@
    ||| e == "doc"@
    ||| e == "docx"@
    ||| e == "rs"@
    ||| e == "py"@
    ||| e == "js"@
    ||| e == "ts"@
    ||| e == "go"@
    ||| e == "c"@
    ||| e == "h"@
    ||| e == "cpp"@
    ||| e == "java"@
    ||| e == "rb"@
    ||| e == "sh"@
    ||| e == "bat"@
}

/// The classification `parse_input` owes, given whether the trimmed input
/// names an existing file: `Ok` carries the shape and the text of the
/// recognised input.
pub open spec fn spec_parse_input(input: Seq<char>, file_exists: bool) -> Result<
    (InputKind, Seq<char>),
    InputError,
> {
    let t = trimmed(input);
    if t.len() == 0 {
        Err(InputError::Empty)
    } else if starts_with(t, "magnet:"@) {
        Ok((InputKind::Magnet, t))
    } else if starts_with(t, "http://"@) || starts_with(t, "https://"@) {
        Ok((InputKind::Http, t))
    } else if file_exists {
        Ok((InputKind::TorrentFile, t))
    } else if ends_with(t, ".torrent"@) {
        Err(InputError::TorrentFileNotFound)
    } else if starts_with(t, "www."@) {
        Ok((InputKind::Http, "https://"@ + t))
    } else if contains_char(t, '/') && contains_char(t, '.') {
        Ok((InputKind::Http, "https://"@ + t))
    } else if contains_char(t, '.') && !contains_char(t, '/') && !denied_extension(
        lowered(last_dot_suffix(t)),
    ) {
        Ok((InputKind::Http, "https://"@ + t))
    } else {
        Err(InputError::Unrecognized)
    }
}

/// Whether the characters of `v` start with those of `pat`.
pub(crate) fn vec_starts_with(v: &Vec<char>, pat: &Vec<char>) -> (r: bool)
    ensures
        r == starts_with(v@, pat@),
{
    if pat.len() > v.len() {
        proof {
            assert(!starts_with(v@, pat@));
        }
        return false;
    }
    let mut i: usize = 0;
    while i < pat.len()
        invariant
            i <= pat@.len() <= v@.len(),
            forall|j: int| 0 <= j < i ==> v@[j] == pat@[j],
        decreases pat@.len() - i,
    {
        if v[i] != pat[i] {
            proof {
                assert(v@.take(pat@.len() as int)[i as int] != pat@[i as int]);
            }
            return false;
        }
        i = i + 1;
    }
    proof {
        assert(v@.take(pat@.len() as int) =~= pat@);
    }
    true
}

/// Whether the characters of `v` end with those of `pat`.
fn vec_ends_with(v: &Vec<char>, pat: &Vec<char>) -> (r: bool)
    ensures
        r == ends_with(v@, pat@),
{
    if pat.len() > v.len() {
        proof {
            assert(!ends_with(v@, pat@));
        }
        return false;
    }
    let off = v.len() - pat.len();
    let mut i: usize = 0;
    while i < pat.len()
        invariant
            i <= pat@.len() <= v@.len(),
            v@.len() <= usize::MAX,
            off == v@.len() - pat@.len(),
            forall|j: int| 0 <= j < i ==> v@[off + j] == pat@[j],
        decreases pat@.len() - i,
    {
        if v[off + i] != pat[i] {
            proof {
                assert(v@.skip(off as int)[i as int] != pat@[i as int]);
            }
            return false;
        }
        i = i + 1;
    }
    proof {
        assert(v@.skip(off as int) =~= pat@);
    }
    true
}

/// Whether `c` occurs among the characters of `v`.
fn vec_contains_char(v: &Vec<char>, c: char) -> (r: bool)
    ensures
        r == contains_char(v@, c),
{
    let mut i: usize = 0;
    while i < v.len()
        invariant
            i <= v@.len(),
            forall|j: int| 0 <= j < i ==> v@[j] != c,
        decreases v@.len() - i,
    {
        if v[i] == c {
            return true;
        }
        i = i + 1;
    }
    false
}

/// Whether the characters of `v` are exactly those of `s`.
pub(crate) fn vec_eq_str(v: &Vec<char>, s: &str) -> (r: bool)
    ensures
        r == (v@ == s@),
{
    let n = s.unicode_len();
    if v.len() != n {
        proof {
            assert(v@.len() != s@.len());
        }
        return false;
    }
    let mut i: usize = 0;
    while i < n
        invariant
            i <= n,
            (n as nat) == s@.len(),
            v@.len() == s@.len(),
            forall|j: int| 0 <= j < i ==> v@[j] == s@[j],
        decreases n - i,
    {
        if v[i] != s.get_char(i) {
            return false;
        }
        i = i + 1;
    }
    proof {
        assert(v@ =~= s@);
    }
    true
}

/// The characters of `v` after the last `.`.
fn vec_last_dot_suffix(v: &Vec<char>) -> (r: Vec<char>)
    ensures
        r@ == last_dot_suffix(v@),
{
    let mut start: usize = v.len();
    while start > 0 && v[start - 1] != '.'
        invariant
            start <= v@.len(),
            forall|j: int| start <= j < v@.len() ==> v@[j] != '.',
        decreases start,
    {
        start = start - 1;
    }
    proof {
        lemma_last_dot_suffix_from(v@, start as int);
    }
    let mut r: Vec<char> = Vec::new();
    let mut k: usize = start;
    while k < v.len()
        invariant
            start <= k <= v@.len(),
            r@ == v@.subrange(start as int, k as int),
        decreases v@.len() - k,
    {
        r.push(v[k]);
        proof {
            assert(v@.subrange(start as int, k + 1) =~= v@.subrange(start as int, k as int).push(
                v@[k as int],
            ));
        }
        k = k + 1;
    }
    proof {
        assert(r@ =~= v@.subrange(start as int, v@.len() as int));
    }
    r
}

/// When no `.` occurs at or after `start`, and either `start` is zero or a
/// `.` stands just before it, the last-dot suffix is the tail from
/// `start`.
proof fn lemma_last_dot_suffix_from(s: Seq<char>, start: int)
    requires
        0 <= start <= s.len(),
        forall|j: int| start <= j < s.len() ==> s[j] != '.',
        start == 0 || s[start - 1] == '.',
    ensures
        last_dot_suffix(s) == s.subrange(start, s.len() as int),
    decreases s.len(),
{
    if s.len() == 0 {
        assert(s.subrange(0, 0) =~= s);
    } else if s.last() == '.' {
        assert(start == s.len());
        assert(s.subrange(start, s.len() as int) =~= Seq::<char>::empty());
    } else {
        assert(start < s.len());
        let t = s.drop_last();
        lemma_last_dot_suffix_from(t, start);
        assert(t.subrange(start, t.len() as int).push(s.last()) =~= s.subrange(
            start,
            s.len() as int,
        ));
    }
}

/// Whether the lowercased characters of `v` form a denied extension.
fn vec_denied_extension(v: &Vec<char>) -> (r: bool)
    ensures
        r == denied_extension(v@),
{
    vec_eq_str(v, "txt") || vec_eq_str(v, "log") || vec_eq_str(v, "csv") || vec_eq_str(v, "json")
        || vec_eq_str(v, "xml") || vec_eq_str(v, "yml") || vec_eq_str(v, "yaml") || vec_eq_str(
        v,
        "toml",
    ) || vec_eq_str(v, "ini") || vec_eq_str(v, "cfg") || vec_eq_str(v, "conf") || vec_eq_str(
        v,
        "md",
    ) || vec_eq_str(v, "rst") || vec_eq_str(v, "zip") || vec_eq_str(v, "tar") || vec_eq_str(
        v,
        "gz",
    ) || vec_eq_str(v, "bz2") || vec_eq_str(v, "xz") || vec_eq_str(v, "7z") || vec_eq_str(v, "rar")
        || vec_eq_str(v, "pdf") || vec_eq_str(v, "doc") || vec_eq_str(v, "docx") || vec_eq_str(
        v,
        "rs",
    ) || vec_eq_str(v, "py") || vec_eq_str(v, "js") || vec_eq_str(v, "ts") || vec_eq_str(v, "go")
        || vec_eq_str(v, "c") || vec_eq_str(v, "h") || vec_eq_str(v, "cpp") || vec_eq_str(v, "java")
        || vec_eq_str(v, "rb") || vec_eq_str(v, "sh") || vec_eq_str(v, "bat")
}

/// Parse an input string into a typed input. `file_exists` reports whether
/// the trimmed input names an existing file; the caller checks the
/// filesystem, this function decides.
pub fn parse_input(input: &str, file_exists: bool) -> (r: Result<ParsedInput, InputError>)
    ensures
        r is Ok <==> spec_parse_input(input@, file_exists) is Ok,
        r matches Ok(p) ==> parsed_view(p) == spec_parse_input(input@, file_exists)->Ok_0,
        r matches Err(e) ==> Err::<(InputKind, Seq<char>), _>(e) == spec_parse_input(
            input@,
            file_exists,
        ),
{
    let t = trim_chars(input);
    if t.len() == 0 {
        return Err(InputError::Empty);
    }
    if vec_starts_with(&t, &string_chars("magnet:")) {
        return Ok(ParsedInput::Magnet(chars_to_string(&t)));
    }
    if vec_starts_with(&t, &string_chars("http://")) || vec_starts_with(
        &t,
        &string_chars("https://"),
    ) {
        return Ok(ParsedInput::Http(chars_to_string(&t)));
    }
    if file_exists {
        return Ok(ParsedInput::TorrentFile(chars_to_string(&t)));
    }
    if vec_ends_with(&t, &string_chars(".torrent")) {
        return Err(InputError::TorrentFileNotFound);
    }
    if vec_starts_with(&t, &string_chars("www.")) {
        return Ok(ParsedInput::Http(prefixed_https(&t)));
    }
    if vec_contains_char(&t, '/') && vec_contains_char(&t, '.') {
        return Ok(ParsedInput::Http(prefixed_https(&t)));
    }
    if vec_contains_char(&t, '.') && !vec_contains_char(&t, '/') {
        let suffix = lower_chars(&vec_last_dot_suffix(&t));
        if !vec_denied_extension(&suffix) {
            return Ok(ParsedInput::Http(prefixed_https(&t)));
        }
    }
    Err(InputError::Unrecognized)
}

/// `https://` followed by the given characters.
fn prefixed_https(t: &Vec<char>) -> (r: String)
    ensures
        r@ == "https://"@ + t@,
{
    let mut r: String = "https://".to_owned();
    let tail = chars_to_string(t);
    r.append(tail.as_str());
    r
}

impl ParsedInput {
    /// Get the kind of this input as a string.
    pub fn kind(&self) -> (r: &'static str)
        ensures
            parsed_view(*self).0 == InputKind::Http ==> r@ == "http"@,
            parsed_view(*self).0 == InputKind::Magnet ==> r@ == "magnet"@,
            parsed_view(*self).0 == InputKind::TorrentFile ==> r@ == "torrent"@,
    {
        match self {
            ParsedInput::Http(_) => "http",
            ParsedInput::Magnet(_) => "magnet",
            ParsedInput::TorrentFile(_) => "torrent",
        }
    }
}

/// The percent-decoding of a character sequence, when it decodes to valid
/// text; what `urlencoding::decode` returns.
pub uninterp spec fn url_decoded(s: Seq<char>) -> Option<Seq<char>>;

/// Relies on `urlencoding::decode`: percent-decoding is a pure function of
/// its input, and a string holding no `%` comes back unchanged.
#[verifier::external_body]
fn url_decode(s: &str) -> (r: Option<String>)
    ensures
        url_decoded(s@) is Some ==> r is Some,
        url_decoded(s@) is None ==> r is None,
        r is Some ==> (r->0)@ == url_decoded(s@)->0,
        (forall|i: int| 0 <= i < s@.len() ==> s@[i] != '%') ==> r is Some && (r->0)@ == s@,
{
    urlencoding::decode(s).ok().map(|c| c.into_owned())
}

/// The display name a magnet link shows: its `dn=` value percent-decoded,
/// else `magnet:` with the leading info hash, else the link itself.
pub open spec fn spec_magnet_display(u: Seq<char>) -> Seq<char> {
    match find_from(u, "dn="@, 0) {
        Some(d) => {
            let start = d + "dn="@.len();
            let end = match find_from(u, "&"@, start) {
                Some(e) => e,
                None => u.len() as int,
            };
            let name = u.subrange(start, end);
            match url_decoded(name) {
                Some(t) => t,
                None => name,
            }
        },
        None => match find_from(u, "btih:"@, 0) {
            Some(h) => {
                let start = h + "btih:"@.len();
                let end0 = match find_from(u, "&"@, start) {
                    Some(e) => e,
                    None => u.len() as int,
                };
                let end = if end0 < start + 16 {
                    end0
                } else {
                    start + 16
                };
                "magnet:"@ + u.subrange(start, end)
            },
            None => u,
        },
    }
}

/// The display string each input shows.
pub open spec fn spec_display(p: ParsedInput) -> Seq<char> {
    match p {
        ParsedInput::Http(u) => u@,
        ParsedInput::Magnet(u) => spec_magnet_display(u@),
        ParsedInput::TorrentFile(t) => t@,
    }
}

/// Whether `pat` occurs in `v` at position `i`, executably.
fn vec_match_at(v: &Vec<char>, pat: &Vec<char>, i: usize) -> (r: bool)
    requires
        i + pat@.len() <= v@.len(),
    ensures
        r == is_match_at(v@, pat@, i as int),
{
    let vl = v.len();
    let mut j: usize = 0;
    while j < pat.len()
        invariant
            j <= pat@.len(),
            i + pat@.len() <= v@.len(),
            vl == v@.len(),
            forall|k: int| 0 <= k < j ==> v@[i + k] == pat@[k],
        decreases pat@.len() - j,
    {
        if v[i + j] != pat[j] {
            proof {
                assert(v@.subrange(i as int, i + pat@.len() as int)[j as int] != pat@[j as int]);
            }
            return false;
        }
        j = j + 1;
    }
    proof {
        assert(v@.subrange(i as int, i + pat@.len() as int) =~= pat@);
    }
    true
}

/// The first occurrence of `pat` in `v` at or after `from`.
pub(crate) fn vec_find_from(v: &Vec<char>, pat: &Vec<char>, from: usize) -> (r: Option<usize>)
    requires
        pat@.len() >= 1,
    ensures
        r is Some <==> find_from(v@, pat@, from as int) is Some,
        r matches Some(i) ==> Some(i as int) == find_from(v@, pat@, from as int) && from <= i && i
            + pat@.len() <= v@.len(),
{
    let n = v.len();
    if from > n {
        proof {
            assert(find_from(v@, pat@, from as int) is None);
        }
        return None;
    }
    let mut i: usize = from;
    loop
        invariant_except_break
            from <= i,
            i <= v@.len(),
            pat@.len() >= 1,
            n == v@.len(),
            v@.len() <= usize::MAX,
            find_from(v@, pat@, from as int) == find_from(v@, pat@, i as int),
        ensures
            find_from(v@, pat@, from as int) == (if i <= v@.len() && is_match_at(
                v@,
                pat@,
                i as int,
            ) {
                Some(i as int)
            } else {
                None::<int>
            }),
            i + pat@.len() <= v@.len() || find_from(v@, pat@, from as int) is None,
            from <= i,
            i <= v@.len(),
            n == v@.len(),
        decreases v@.len() + 1 - i,
    {
        if pat.len() > n - i {
            proof {
                assert(find_from(v@, pat@, i as int) is None);
            }
            break ;
        }
        if vec_match_at(v, pat, i) {
            break ;
        }
        i = i + 1;
    }
    if pat.len() <= n - i && vec_match_at(v, pat, i) {
        Some(i)
    } else {
        None
    }
}

/// Copy the characters of `v` between `a` and `b`.
fn copy_range(v: &Vec<char>, a: usize, b: usize) -> (r: Vec<char>)
    requires
        a <= b <= v@.len(),
    ensures
        r@ == v@.subrange(a as int, b as int),
{
    let mut r: Vec<char> = Vec::new();
    let mut i: usize = a;
    while i < b
        invariant
            a <= i <= b <= v@.len(),
            r@ == v@.subrange(a as int, i as int),
        decreases b - i,
    {
        r.push(v[i]);
        proof {
            assert(v@.subrange(a as int, i + 1) =~= v@.subrange(a as int, i as int).push(
                v@[i as int],
            ));
        }
        i = i + 1;
    }
    r
}

impl ParsedInput {
    /// Get a display string for this input.
    pub fn display(&self) -> (r: String)
        ensures
            r@ == spec_display(*self),
    {
        match self {
            ParsedInput::Http(url) => url.clone(),
            ParsedInput::TorrentFile(p) => p.clone(),
            ParsedInput::Magnet(uri) => {
                let u = string_chars(uri.as_str());
                let ulen = u.len();
                let dn = string_chars("dn=");
                let amp = string_chars("&");
                proof {
                    reveal_strlit("dn=");
                    reveal_strlit("&");
                    reveal_strlit("btih:");
                }
                match vec_find_from(&u, &dn, 0) {
                    Some(d) => {
                        let start = d + 3;
                        let end = match vec_find_from(&u, &amp, start) {
                            Some(e) => e,
                            None => ulen,
                        };
                        let name = chars_to_string(&copy_range(&u, start, end));
                        match url_decode(name.as_str()) {
                            Some(t) => t,
                            None => name,
                        }
                    },
                    None => {
                        let btih = string_chars("btih:");
                        match vec_find_from(&u, &btih, 0) {
                            Some(h) => {
                                let start = h + 5;
                                let end0 = match vec_find_from(&u, &amp, start) {
                                    Some(e) => e,
                                    None => ulen,
                                };
                                let end = if end0 - start < 16 {
                                    end0
                                } else {
                                    start + 16
                                };
                                let mut r: String = "magnet:".to_owned();
                                let mid = chars_to_string(&copy_range(&u, start, end));
                                r.append(mid.as_str());
                                r
                            },
                            None => uri.clone(),
                        }
                    },
                }
            },
        }
    }
}

/// A found occurrence lies at or after the start of the search.
pub(crate) proof fn lemma_find_from_ge(s: Seq<char>, pat: Seq<char>, from: int)
    requires
        0 <= from,
    ensures
        find_from(s, pat, from) matches Some(i) ==> from <= i && i + pat.len() <= s.len(),
    decreases s.len() - from + 1,
{
    if from + pat.len() > s.len() {
    } else if is_match_at(s, pat, from) {
    } else {
        lemma_find_from_ge(s, pat, from + 1);
    }
}

} // verus!
