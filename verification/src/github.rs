//! Remote release metadata: the release and asset records, the parser for
//! the hash manifest that accompanies a release, and asset lookup by
//! regular-expression pattern.
use vstd::prelude::*;

use crate::text::{blank_char, is_blank, lemma_trim_blanks_skip, trim_blanks};

verus! {

/// One downloadable file of a release.
pub struct AssetInformation {
    pub name: String,
    pub url: String,
}

/// The metadata of one release: its tag and its assets, in the order the
/// release lists them.
pub struct ReleaseInformation {
    pub tag_name: String,
    pub assets: Vec<AssetInformation>,
}

/// Why release metadata could not be obtained or read.
#[derive(Debug)]
pub enum ParseError {
    FetchError,
    InvalidResponse,
    TagName,
    ReleaseAssets,
}

impl ParseError {
    pub fn message(&self) -> (r: &str)
        ensures
            self is FetchError ==> r@ == "Failed to fetch latest release information"@,
            self is InvalidResponse ==> r@ == "Invalid JSON response from GitHub API"@,
            self is TagName ==> r@ == "Couldn't get tag name"@,
            self is ReleaseAssets ==> r@ == "Couldn't get release assets"@,
    {
        match self {
            Self::FetchError => "Failed to fetch latest release information",
            Self::InvalidResponse => "Invalid JSON response from GitHub API",
            Self::TagName => "Couldn't get tag name",
            Self::ReleaseAssets => "Couldn't get release assets",
        }
    }
}

/// Why the hash manifest of a release could not be obtained.
#[derive(Debug)]
pub enum HashesError {
    AssetNotFound,
    FetchError,
}

impl HashesError {
    pub fn message(&self) -> (r: &str)
        ensures
            self is AssetNotFound ==> r@ == "Couldn't find hashes.txt asset"@,
            self is FetchError ==> r@ == "Failed to fetch hashes.txt"@,
    {
        match self {
            Self::AssetNotFound => "Couldn't find hashes.txt asset",
            Self::FetchError => "Failed to fetch hashes.txt",
        }
    }
}

// ---------------------------------------------------------------------------
// The hash manifest: lines of the form "<digest><blank><filename>"; lines
// without a blank are skipped; a later line for the same filename wins.
// ---------------------------------------------------------------------------

/// Index of the first line break, or the length when there is none.
pub open spec fn first_nl(s: Seq<char>) -> int
    decreases s.len(),
{
    if s.len() == 0 {
        0
    } else if s.first() == '\n' {
        0
    } else {
        1 + first_nl(s.drop_first())
    }
}

/// Index of the first blank, or the length when there is none.
pub open spec fn first_blank(s: Seq<char>) -> int
    decreases s.len(),
{
    if s.len() == 0 {
        0
    } else if is_blank(s.first()) {
        0
    } else {
        1 + first_blank(s.drop_first())
    }
}

/// A line ending in a carriage return loses it.
pub open spec fn strip_cr(l: Seq<char>) -> Seq<char> {
    if l.len() > 0 && l.last() == '\r' {
        l.drop_last()
    } else {
        l
    }
}

/// The lines of a text, split at line breaks, each without a trailing
/// carriage return; a final line break ends the last line rather than
/// opening an empty one.
pub open spec fn split_lines(s: Seq<char>) -> Seq<Seq<char>>
    decreases s.len(),
{
    if s.len() == 0 {
        Seq::empty()
    } else {
        let i = first_nl(s);
        if 0 <= i < s.len() {
            seq![strip_cr(s.take(i))] + split_lines(s.skip(i + 1))
        } else {
            seq![strip_cr(s)]
        }
    }
}

/// The (filename, digest) pair a manifest line yields: the digest is what
/// stands before the first blank, the filename what stands after it, less
/// further leading blanks. A line without a blank yields nothing.
pub open spec fn line_entry(l: Seq<char>) -> Option<(Seq<char>, Seq<char>)> {
    let i = first_blank(l);
    if 0 <= i < l.len() {
        Some((trim_blanks(l.skip(i + 1)), l.take(i)))
    } else {
        None
    }
}

/// The (filename, digest) pairs of a sequence of lines, in order.
pub open spec fn entries_of_lines(ls: Seq<Seq<char>>) -> Seq<(Seq<char>, Seq<char>)>
    decreases ls.len(),
{
    if ls.len() == 0 {
        Seq::empty()
    } else {
        match line_entry(ls.first()) {
            Some(e) => seq![e] + entries_of_lines(ls.drop_first()),
            None => entries_of_lines(ls.drop_first()),
        }
    }
}

/// The (filename, digest) pairs a manifest text yields, in line order.
pub open spec fn manifest_entries(s: Seq<char>) -> Seq<(Seq<char>, Seq<char>)> {
    entries_of_lines(split_lines(s))
}

/// The digest recorded for a filename: that of the last manifest line for
/// it, or nothing when no line names it.
pub open spec fn lookup_entry(es: Seq<(Seq<char>, Seq<char>)>, name: Seq<char>) -> Option<Seq<char>>
    decreases es.len(),
{
    if es.len() == 0 {
        None
    } else if es.last().0 == name {
        Some(es.last().1)
    } else {
        lookup_entry(es.drop_last(), name)
    }
}

/// The parsed hash manifest: filename and digest pairs in line order.
pub struct HashManifest {
    entries: Vec<(String, String)>,
}

impl HashManifest {
    /// The pairs the manifest holds, as they stand in the text.
    pub closed spec fn view(self) -> Seq<(Seq<char>, Seq<char>)> {
        self.entries@.map_values(|e: (String, String)| (e.0@, e.1@))
    }

    pub fn len(&self) -> (r: usize)
        ensures
            r == self.view().len(),
    {
        self.entries.len()
    }

    /// The digest recorded for a filename, honouring that a later manifest
    /// line for the same filename wins.
    pub fn get<'a>(&'a self, filename: &str) -> (r: Option<&'a String>)
        ensures
            match r {
                Some(h) => lookup_entry(self.view(), filename@) == Some(h@),
                None => lookup_entry(self.view(), filename@) is None,
            },
    {
        let mut i = self.entries.len();
        proof {
            assert(self.view().take(i as int) =~= self.view());
        }
        while i > 0
            invariant
                i <= self.entries@.len(),
                lookup_entry(self.view(), filename@) == lookup_entry(
                    self.view().take(i as int),
                    filename@,
                ),
            decreases i,
        {
            i -= 1;
            proof {
                assert(self.view().take(i + 1).last() == self.view()[i as int]);
                assert(self.view().take(i + 1).drop_last() =~= self.view().take(i as int));
                assert(self.view()[i as int] == (self.entries@[i as int].0@,
                self.entries@[i as int].1@));
            }
            if crate::text::str_eq(self.entries[i].0.as_str(), filename) {
                return Some(&self.entries[i].1);
            }
        }
        proof {
            assert(self.view().take(0) =~= Seq::empty());
        }
        None
    }
}

/// Where scanning from `i` finds no line break before `j`, the first line
/// break of the suffix at `i` is at `j` (or the suffix ends there).
proof fn lemma_first_nl_at(s: Seq<char>, j: int)
    requires
        0 <= j <= s.len(),
        forall|k: int| 0 <= k < j ==> s[k] != '\n',
        j < s.len() ==> s[j] == '\n',
    ensures
        first_nl(s) == j,
    decreases s.len(),
{
    if s.len() > 0 && j > 0 {
        lemma_first_nl_at(s.drop_first(), j - 1);
    }
}

/// The analogue of [`lemma_first_nl_at`] for blanks.
proof fn lemma_first_blank_at(s: Seq<char>, j: int)
    requires
        0 <= j <= s.len(),
        forall|k: int| 0 <= k < j ==> !is_blank(s[k]),
        j < s.len() ==> is_blank(s[j]),
    ensures
        first_blank(s) == j,
    decreases s.len(),
{
    if s.len() > 0 && j > 0 {
        lemma_first_blank_at(s.drop_first(), j - 1);
    }
}

/// Reads the (filename, digest) pair of one manifest line.
fn parse_manifest_line(line: &str) -> (r: Option<(String, String)>)
    ensures
        match r {
            Some(e) => line_entry(line@) == Some((e.0@, e.1@)),
            None => line_entry(line@) is None,
        },
{
    let llen = line.unicode_len();
    let mut b: usize = 0;
    while b < llen && !blank_char(line.get_char(b))
        invariant
            llen == line@.len(),
            b <= llen,
            forall|k: int| 0 <= k < b ==> !is_blank(line@[k]),
        decreases llen - b,
    {
        b += 1;
    }
    proof {
        lemma_first_blank_at(line@, b as int);
    }
    if b == llen {
        return None;
    }
    let digest = line.substring_char(0, b);
    let mut t: usize = b + 1;
    proof {
        assert(line@.skip(b + 1).skip(0) == line@.skip(b + 1));
    }
    while t < llen && blank_char(line.get_char(t))
        invariant
            llen == line@.len(),
            b + 1 <= t <= llen,
            forall|k: int| b + 1 <= k < t ==> is_blank(line@[k]),
        decreases llen - t,
    {
        t += 1;
    }
    proof {
        assert(forall|k: int|
            0 <= k < t - (b + 1) ==> is_blank(#[trigger] line@.skip(b + 1)[k]));
        lemma_trim_blanks_skip(line@.skip(b + 1), t - (b + 1));
        assert(line@.skip(b + 1).skip(t - (b + 1)) =~= line@.skip(t as int));
        if t < llen {
            assert(line@.skip(t as int).first() == line@[t as int]);
        }
        assert(trim_blanks(line@.skip(t as int)) =~= line@.skip(t as int));
    }
    let filename = line.substring_char(t, llen);
    Some((filename.to_owned(), digest.to_owned()))
}

/// Parses a hash manifest: one `"<digest><blank><filename>"` pair per
/// conforming line, later lines winning; every other line is skipped.
pub fn parse_hashes(s: &str) -> (m: HashManifest)
    ensures
        m.view() == manifest_entries(s@),
{
    let len = s.unicode_len();
    let mut pos: usize = 0;
    let mut entries: Vec<(String, String)> = Vec::new();
    proof {
        assert(s@.skip(0) == s@);
        assert(entries@.map_values(|e: (String, String)| (e.0@, e.1@)) =~= Seq::empty());
    }
    while pos < len
        invariant
            len == s@.len(),
            pos <= len,
            manifest_entries(s@) == entries@.map_values(|e: (String, String)| (e.0@, e.1@))
                + entries_of_lines(split_lines(s@.skip(pos as int))),
        decreases len - pos,
    {
        let ghost u = s@.skip(pos as int);
        let mut nl: usize = pos;
        while nl < len && s.get_char(nl) != '\n'
            invariant
                len == s@.len(),
                pos <= nl <= len,
                forall|k: int| pos <= k < nl ==> s@[k] != '\n',
            decreases len - nl,
        {
            nl += 1;
        }
        proof {
            assert(forall|k: int| 0 <= k < nl - pos ==> u[k] == s@[pos + k]);
            lemma_first_nl_at(u, nl - pos);
        }
        // The raw line runs to the break; a trailing carriage return goes.
        let mut line_end: usize = nl;
        if line_end > pos && s.get_char(line_end - 1) == '\r' {
            line_end -= 1;
        }
        let line = s.substring_char(pos, line_end);
        let ghost raw = if nl < len {
            u.take(nl - pos)
        } else {
            u
        };
        proof {
            if nl < len {
                assert(u.take(nl - pos) =~= s@.subrange(pos as int, nl as int));
            } else {
                assert(u =~= s@.subrange(pos as int, nl as int));
            }
            if nl > pos && s@[nl - 1] == '\r' {
                assert(raw.len() > 0 && raw.last() == '\r');
                assert(strip_cr(raw) =~= s@.subrange(pos as int, line_end as int));
            } else {
                assert(strip_cr(raw) =~= s@.subrange(pos as int, line_end as int));
            }
            assert(line@ == strip_cr(raw));
        }
        let entry = parse_manifest_line(line);
        proof {
            if nl < len {
                assert(split_lines(u) == seq![strip_cr(u.take(nl - pos))] + split_lines(
                    u.skip(nl - pos + 1),
                ));
                assert(u.skip(nl - pos + 1) =~= s@.skip(nl + 1));
            } else {
                assert(first_nl(u) == u.len());
                assert(split_lines(u) == seq![strip_cr(u)]);
            }
        }
        match entry {
            Some(e) => {
                let ghost old_entries = entries@;
                entries.push(e);
                proof {
                    assert(entries@.map_values(|e: (String, String)| (e.0@, e.1@)) =~= old_entries
                        .map_values(|e: (String, String)| (e.0@, e.1@)).push((e.0@, e.1@)));
                }
            },
            None => {},
        }
        proof {
            let tail = split_lines(u).drop_first();
            assert(split_lines(u).first() == line@);
            if nl < len {
                assert(tail =~= split_lines(s@.skip(nl + 1)));
            } else {
                assert(tail =~= Seq::<Seq<char>>::empty());
                assert(entries_of_lines(tail) =~= Seq::empty());
                assert(split_lines(s@.skip(len as int)) =~= Seq::empty());
            }
            assert(entries_of_lines(split_lines(u)) == match line_entry(line@) {
                Some(e) => seq![e] + entries_of_lines(tail),
                None => entries_of_lines(tail),
            });
        }
        pos = if nl < len {
            nl + 1
        } else {
            len
        };
    }
    proof {
        assert(split_lines(s@.skip(len as int)) =~= Seq::empty());
        assert(manifest_entries(s@) =~= entries@.map_values(|e: (String, String)| (e.0@, e.1@)));
    }
    HashManifest { entries }
}

// ---------------------------------------------------------------------------
// Reading release metadata out of the JSON body of a release query.
// ---------------------------------------------------------------------------

/// Declares `serde_json::Value`, the parsed JSON tree, as an opaque type;
/// the release reader walks it through the calls assumed below, and the
/// contracts speak of those calls' results by the names beside them.
#[verifier::external_type_specification]
#[verifier::external_body]
pub struct ExJsonValue(serde_json::Value);

/// The document a piece of text parses to, or nothing where the text is not
/// well-formed JSON. It depends on the text alone.
pub uninterp spec fn json_doc_of(s: Seq<char>) -> Option<serde_json::Value>;

/// What a JSON-pointer lookup finds in a document. It depends on the value
/// and the pointer alone.
pub uninterp spec fn json_pointer_of(v: serde_json::Value, pointer: Seq<char>) -> Option<
    serde_json::Value,
>;

/// The text a JSON value holds, where it is a string.
pub uninterp spec fn json_str_of(v: serde_json::Value) -> Option<Seq<char>>;

/// The elements a JSON value holds, where it is an array.
pub uninterp spec fn json_array_of(v: serde_json::Value) -> Option<Seq<serde_json::Value>>;

/// Relies on `serde_json::from_str` for reading a JSON document.
#[verifier::external_body]
fn json_from_str(s: &str) -> (r: Option<serde_json::Value>)
    ensures
        r == json_doc_of(s@),
{
    serde_json::from_str::<serde_json::Value>(s).ok()
}

/// Relies on `serde_json::Value::pointer` for JSON-pointer lookup.
pub assume_specification<'a>[ serde_json::Value::pointer ](
    v: &'a serde_json::Value,
    pointer: &str,
) -> (r: Option<&'a serde_json::Value>)
    ensures
        match r {
            Some(x) => json_pointer_of(*v, pointer@) == Some(*x),
            None => json_pointer_of(*v, pointer@) is None,
        },
;

/// Relies on `serde_json::Value::as_str` for reading a JSON string.
pub assume_specification<'a>[ serde_json::Value::as_str ](v: &'a serde_json::Value) -> (r: Option<
    &'a str,
>)
    ensures
        match r {
            Some(s) => json_str_of(*v) == Some(s@),
            None => json_str_of(*v) is None,
        },
;

/// Relies on `serde_json::Value::as_array` for reading a JSON array.
pub assume_specification<'a>[ serde_json::Value::as_array ](v: &'a serde_json::Value) -> (r: Option<
    &'a Vec<serde_json::Value>,
>)
    ensures
        match r {
            Some(a) => json_array_of(*v) == Some(a@),
            None => json_array_of(*v) is None,
        },
;

/// The release tag a document carries: the string at `/tag_name`.
pub open spec fn spec_release_tag(doc: serde_json::Value) -> Option<Seq<char>> {
    match json_pointer_of(doc, "/tag_name"@) {
        Some(v) => json_str_of(v),
        None => None,
    }
}

/// The asset list a document carries: the array at `/assets`.
pub open spec fn spec_release_assets(doc: serde_json::Value) -> Option<Seq<serde_json::Value>> {
    match json_pointer_of(doc, "/assets"@) {
        Some(v) => json_array_of(v),
        None => None,
    }
}

/// The (name, download URL) pair an asset entry carries: the strings at
/// `/name` and `/browser_download_url`, or nothing where either is missing
/// or not a string.
pub open spec fn spec_asset_entry(v: serde_json::Value) -> Option<(Seq<char>, Seq<char>)> {
    let name = match json_pointer_of(v, "/name"@) {
        Some(n) => json_str_of(n),
        None => None,
    };
    let url = match json_pointer_of(v, "/browser_download_url"@) {
        Some(u) => json_str_of(u),
        None => None,
    };
    match (name, url) {
        (Some(n), Some(u)) => Some((n, u)),
        _ => None,
    }
}

/// Reads release metadata out of the JSON body of a release query: the tag
/// under `tag_name`, and for each entry of `assets` its `name` and
/// `browser_download_url`, in order. Each error names the piece that was
/// missing; the transport's error never comes from here.
pub fn parse_release_information(body: &str) -> (r: Result<ReleaseInformation, ParseError>)
    ensures
        ({
            match r {
                Ok(rel) => json_doc_of(body@) matches Some(doc) && {
                    &&& spec_release_tag(doc) == Some(rel.tag_name@)
                    &&& spec_release_assets(doc) matches Some(arr) && {
                        &&& rel.assets@.len() == arr.len()
                        &&& forall|i: int|
                            0 <= i < arr.len() ==> spec_asset_entry(#[trigger] arr[i]) == Some(
                                (rel.assets@[i].name@, rel.assets@[i].url@),
                            )
                    }
                },
                Err(e) => match e {
                    ParseError::FetchError => false,
                    ParseError::InvalidResponse => json_doc_of(body@) is None,
                    ParseError::TagName => json_doc_of(body@) matches Some(doc)
                        && spec_release_tag(doc) is None,
                    ParseError::ReleaseAssets => json_doc_of(body@) matches Some(doc) && {
                        &&& spec_release_tag(doc) is Some
                        &&& match spec_release_assets(doc) {
                            Some(arr) => exists|i: int|
                                0 <= i < arr.len() && spec_asset_entry(#[trigger] arr[i]) is None,
                            None => true,
                        }
                    },
                },
            }
        }),
{
    let response_json = match json_from_str(body) {
        Some(v) => v,
        None => {
            return Err(ParseError::InvalidResponse);
        },
    };
    let tag_value = match response_json.pointer("/tag_name") {
        Some(v) => v,
        None => {
            return Err(ParseError::TagName);
        },
    };
    let tag_name = match tag_value.as_str() {
        Some(s) => s,
        None => {
            return Err(ParseError::TagName);
        },
    };
    let assets_value = match response_json.pointer("/assets") {
        Some(v) => v,
        None => {
            return Err(ParseError::ReleaseAssets);
        },
    };
    let assets_json = match assets_value.as_array() {
        Some(a) => a,
        None => {
            return Err(ParseError::ReleaseAssets);
        },
    };
    let ghost arr = assets_json@;
    let mut assets: Vec<AssetInformation> = Vec::new();
    let mut i: usize = 0;
    while i < assets_json.len()
        invariant
            json_doc_of(body@) == Some(response_json),
            spec_release_tag(response_json) == Some(tag_name@),
            spec_release_assets(response_json) == Some(arr),
            arr == assets_json@,
            i <= arr.len(),
            assets@.len() == i,
            forall|j: int|
                0 <= j < i ==> spec_asset_entry(#[trigger] arr[j]) == Some(
                    (assets@[j].name@, assets@[j].url@),
                ),
        decreases assets_json.len() - i,
    {
        let asset_json = &assets_json[i];
        let name_value = match asset_json.pointer("/name") {
            Some(v) => v,
            None => {
                proof {
                    assert(spec_asset_entry(arr[i as int]) is None);
                }
                return Err(ParseError::ReleaseAssets);
            },
        };
        let asset_name = match name_value.as_str() {
            Some(s) => s,
            None => {
                proof {
                    assert(spec_asset_entry(arr[i as int]) is None);
                }
                return Err(ParseError::ReleaseAssets);
            },
        };
        let url_value = match asset_json.pointer("/browser_download_url") {
            Some(v) => v,
            None => {
                proof {
                    assert(spec_asset_entry(arr[i as int]) is None);
                }
                return Err(ParseError::ReleaseAssets);
            },
        };
        let asset_url = match url_value.as_str() {
            Some(s) => s,
            None => {
                proof {
                    assert(spec_asset_entry(arr[i as int]) is None);
                }
                return Err(ParseError::ReleaseAssets);
            },
        };
        assets.push(AssetInformation { name: asset_name.to_owned(), url: asset_url.to_owned() });
        proof {
            assert(spec_asset_entry(arr[i as int]) == Some(
                (assets@[i as int].name@, assets@[i as int].url@),
            ));
        }
        i += 1;
    }
    Ok(ReleaseInformation { tag_name: tag_name.to_owned(), assets })
}

// ---------------------------------------------------------------------------
// Asset lookup by regular-expression pattern.
// ---------------------------------------------------------------------------

/// Declares `regex::Regex`, a compiled pattern, as an opaque type; what it
/// holds and answers is named by the three functions below.
#[verifier::external_type_specification]
#[verifier::external_body]
pub struct ExRegex(regex::Regex);

/// The pattern a compiled regular expression was built from.
pub uninterp spec fn regex_pattern(r: regex::Regex) -> Seq<char>;

/// Whether a pattern is a well-formed regular expression. Compilation
/// depends on the pattern alone.
pub uninterp spec fn regex_compiles(pattern: Seq<char>) -> bool;

/// Whether a pattern matches somewhere in a text. The answer depends on the
/// pattern and the text alone.
pub uninterp spec fn regex_match_of(pattern: Seq<char>, text: Seq<char>) -> bool;

/// Relies on `regex::Regex::new` for compiling a pattern.
#[verifier::external_body]
fn regex_new(pattern: &str) -> (r: Option<regex::Regex>)
    ensures
        r is Some <==> regex_compiles(pattern@),
        r matches Some(re) ==> regex_pattern(re) == pattern@,
{
    regex::Regex::new(pattern).ok()
}

/// Relies on `regex::Regex::is_match` for the match test itself.
#[verifier::external_body]
fn regex_is_match(re: &regex::Regex, text: &str) -> (r: bool)
    ensures
        r == regex_match_of(regex_pattern(*re), text@),
{
    re.is_match(text)
}

/// Whether an asset's name matches a pattern.
pub open spec fn asset_matches(a: AssetInformation, pattern: Seq<char>) -> bool {
    regex_match_of(pattern, a.name@)
}

/// The first asset of the release whose name matches the pattern; nothing
/// when no name matches, and nothing when the pattern does not compile.
pub fn find_asset<'a>(release_info: &'a ReleaseInformation, pattern: &str) -> (r: Option<
    &'a AssetInformation,
>)
    ensures
        !regex_compiles(pattern@) ==> r is None,
        regex_compiles(pattern@) ==> match r {
            Some(a) => exists|i: int|
                {
                    &&& 0 <= i < release_info.assets@.len()
                    &&& *a == release_info.assets@[i]
                    &&& asset_matches(#[trigger] release_info.assets@[i], pattern@)
                    &&& forall|j: int|
                        0 <= j < i ==> !asset_matches(#[trigger] release_info.assets@[j], pattern@)
                },
            None => forall|i: int|
                0 <= i < release_info.assets@.len() ==> !asset_matches(
                    #[trigger] release_info.assets@[i],
                    pattern@,
                ),
        },
{
    let re = match regex_new(pattern) {
        Some(re) => re,
        None => {
            return None;
        },
    };
    let mut i: usize = 0;
    while i < release_info.assets.len()
        invariant
            regex_compiles(pattern@),
            regex_pattern(re) == pattern@,
            i <= release_info.assets@.len(),
            forall|j: int|
                0 <= j < i ==> !asset_matches(#[trigger] release_info.assets@[j], pattern@),
        decreases release_info.assets@.len() - i,
    {
        if regex_is_match(&re, release_info.assets[i].name.as_str()) {
            return Some(&release_info.assets[i]);
        }
        i += 1;
    }
    None
}

/// Why an artifact could not be resolved against its release: no asset
/// matches its pattern, or the manifest declares no digest for the matched
/// asset.
#[derive(Clone, Copy, PartialEq, Eq, Structural, Debug)]
pub enum ResolveError {
    AssetNotFound,
    HashNotFound,
}

/// The checks before any bytes move for one artifact: the release must
/// offer an asset matching the artifact's pattern, and the manifest must
/// declare a digest for that asset's name.
pub fn resolve_artifact<'a>(
    release_info: &'a ReleaseInformation,
    pattern: &str,
    hashes: &'a HashManifest,
) -> (r: Result<(&'a AssetInformation, &'a String), ResolveError>)
    ensures
        match r {
            Ok(p) => {
                &&& regex_compiles(pattern@)
                &&& exists|i: int|
                    {
                        &&& 0 <= i < release_info.assets@.len()
                        &&& *p.0 == release_info.assets@[i]
                        &&& asset_matches(#[trigger] release_info.assets@[i], pattern@)
                        &&& forall|j: int|
                            0 <= j < i ==> !asset_matches(
                                #[trigger] release_info.assets@[j],
                                pattern@,
                            )
                    }
                &&& lookup_entry(hashes.view(), p.0.name@) == Some(p.1@)
            },
            Err(ResolveError::AssetNotFound) => !regex_compiles(pattern@) || forall|i: int|
                0 <= i < release_info.assets@.len() ==> !asset_matches(
                    #[trigger] release_info.assets@[i],
                    pattern@,
                ),
            Err(ResolveError::HashNotFound) => exists|i: int|
                {
                    &&& 0 <= i < release_info.assets@.len()
                    &&& asset_matches(#[trigger] release_info.assets@[i], pattern@)
                    &&& lookup_entry(hashes.view(), release_info.assets@[i].name@) is None
                },
        },
{
    let asset = match find_asset(release_info, pattern) {
        Some(a) => a,
        None => {
            return Err(ResolveError::AssetNotFound);
        },
    };
    match hashes.get(asset.name.as_str()) {
        Some(h) => Ok((asset, h)),
        None => Err(ResolveError::HashNotFound),
    }
}

} // verus!
