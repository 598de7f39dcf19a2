//! The installed package's version identity: candidate files searched in a
//! fixed order, and the parsing of `<identifier> [date]` content.

use vstd::prelude::*;

verus! {

/// Whitespace as far as version content is concerned.
pub open spec fn is_space(c: char) -> bool {
    c == ' ' || c == '\t' || c == '\n' || c == '\r'
}

/// `s` with leading whitespace dropped.
pub open spec fn spec_trim_front(s: Seq<char>) -> Seq<char>
    decreases s.len(),
{
    if s.len() > 0 && is_space(s[0]) {
        spec_trim_front(s.skip(1))
    } else {
        s
    }
}

/// `s` with trailing whitespace dropped.
pub open spec fn spec_trim_back(s: Seq<char>) -> Seq<char>
    decreases s.len(),
{
    if s.len() > 0 && is_space(s[s.len() - 1]) {
        spec_trim_back(s.drop_last())
    } else {
        s
    }
}

/// `s` with whitespace dropped at both ends.
pub open spec fn spec_trim(s: Seq<char>) -> Seq<char> {
    spec_trim_back(spec_trim_front(s))
}

proof fn lemma_trim_front_at(s: Seq<char>, i: int)
    requires
        0 <= i <= s.len(),
        forall|k: int| 0 <= k < i ==> is_space(#[trigger] s[k]),
        i == s.len() || !is_space(s[i]),
    ensures
        spec_trim_front(s) == s.skip(i),
    decreases i,
{
    if i == 0 {
        assert(s.skip(0) =~= s);
    } else {
        lemma_trim_front_at(s.skip(1), i - 1);
        assert(s.skip(1).skip(i - 1) =~= s.skip(i));
    }
}

proof fn lemma_trim_back_at(s: Seq<char>, j: int)
    requires
        0 <= j <= s.len(),
        forall|k: int| j <= k < s.len() ==> is_space(#[trigger] s[k]),
        j == 0 || !is_space(s[j - 1]),
    ensures
        spec_trim_back(s) == s.take(j),
    decreases s.len() - j,
{
    if j == s.len() {
        assert(s.take(j) =~= s);
    } else {
        assert(s.drop_last() =~= s.take(s.len() - 1));
        lemma_trim_back_at(s.drop_last(), j);
        assert(s.drop_last().take(j) =~= s.take(j));
    }
}

fn is_space_exec(c: char) -> (r: bool)
    ensures
        r == is_space(c),
{
    c == ' ' || c == '\t' || c == '\n' || c == '\r'
}

/// Drops whitespace at both ends of `s`.
pub fn trim(s: &str) -> (r: String)
    ensures
        r@ == spec_trim(s@),
{
    let n = s.unicode_len();
    let mut i: usize = 0;
    while i < n && is_space_exec(s.get_char(i))
        invariant
            n == s@.len(),
            0 <= i <= n,
            forall|k: int| 0 <= k < i ==> is_space(#[trigger] s@[k]),
        decreases n - i,
    {
        i = i + 1;
    }
    proof {
        lemma_trim_front_at(s@, i as int);
    }
    let mut j: usize = n;
    while j > i && is_space_exec(s.get_char(j - 1))
        invariant
            n == s@.len(),
            i <= j <= n,
            forall|k: int| j <= k < n ==> is_space(#[trigger] s@[k]),
        decreases j,
    {
        j = j - 1;
    }
    proof {
        let t = s@.skip(i as int);
        assert forall|k: int| j - i <= k < t.len() implies is_space(#[trigger] t[k]) by {
            assert(t[k] == s@[i + k]);
        }
        if j > i {
            assert(t[j - i - 1] == s@[j - 1]);
        }
        lemma_trim_back_at(t, j - i);
        assert(t.take(j - i) =~= s@.subrange(i as int, j as int));
    }
    let sub = s.substring_char(i, j);
    String::from_str(sub)
}

/// A resolved version identity: the commit identifier and, when present,
/// the date. An absent date is represented, not defaulted, so a caller can
/// tell "unknown" from "empty".
pub struct VersionInfo {
    pub commit: String,
    pub date: Option<String>,
}

/// The first position at or after `i` holding a space, or the length when
/// there is none.
pub open spec fn find_space(t: Seq<char>, i: int) -> int
    decreases t.len() - i,
{
    if i < 0 || i >= t.len() {
        t.len() as int
    } else if t[i] == ' ' {
        i
    } else {
        find_space(t, i + 1)
    }
}

proof fn lemma_find_space_at(t: Seq<char>, i: int, p: int)
    requires
        0 <= i <= p <= t.len(),
        forall|k: int| i <= k < p ==> #[trigger] t[k] != ' ',
        p == t.len() || t[p] == ' ',
    ensures
        find_space(t, i) == p,
    decreases p - i,
{
    if i < p {
        lemma_find_space_at(t, i + 1, p);
    }
}

/// What version content parses to: nothing when it is blank; otherwise the
/// first space-delimited token (whitespace-trimmed) as the identifier, and
/// the trimmed remainder as the date when a space splits the content.
pub open spec fn spec_parse_version(content: Seq<char>) -> Option<(Seq<char>, Option<Seq<char>>)> {
    let t = spec_trim(content);
    if t.len() == 0 {
        None
    } else {
        let p = find_space(t, 0);
        if p == t.len() {
            Some((t, None))
        } else {
            Some((spec_trim(t.subrange(0, p)), Some(spec_trim(t.subrange(p + 1, t.len() as int)))))
        }
    }
}

/// Parses version content as `<identifier> [date]`. Blank content yields
/// nothing; content without a space yields an identifier and no date.
pub fn parse_version_content(content: &str) -> (r: Option<VersionInfo>)
    ensures
        r is Some <==> spec_parse_version(content@) is Some,
        r is Some ==> r->0.commit@ == (spec_parse_version(content@)->0).0,
        r is Some ==> (r->0.date is Some <==> (spec_parse_version(content@)->0).1 is Some),
        r is Some && r->0.date is Some ==> r->0.date->0@ == ((spec_parse_version(content@)->0).1)->0,
{
    let t = trim(content);
    let len = t.as_str().unicode_len();
    if len == 0 {
        return None;
    }
    let mut p: usize = 0;
    while p < len && t.as_str().get_char(p) != ' '
        invariant
            len == t@.len(),
            0 <= p <= len,
            forall|k: int| 0 <= k < p ==> #[trigger] t@[k] != ' ',
        decreases len - p,
    {
        p = p + 1;
    }
    proof {
        lemma_find_space_at(t@, 0, p as int);
    }
    if p == len {
        proof {
            assert(t@.subrange(0, len as int) =~= t@);
        }
        Some(VersionInfo { commit: String::from_str(t.as_str()), date: None })
    } else {
        let commit = trim(t.as_str().substring_char(0, p));
        let date = trim(t.as_str().substring_char(p + 1, len));
        Some(VersionInfo { commit, date: Some(date) })
    }
}

/// The fixed, ordered list of files searched for version content under the
/// installation root.
pub fn version_candidate_files() -> (r: Vec<String>)
    ensures
        r@.len() == 4,
        r@[0]@ == "version.txt"@,
        r@[1]@ == "COMMIT"@,
        r@[2]@ == ".commit"@,
        r@[3]@ == "server/version.txt"@,
{
    let mut r: Vec<String> = Vec::new();
    r.push(String::from_str("version.txt"));
    r.push(String::from_str("COMMIT"));
    r.push(String::from_str(".commit"));
    r.push(String::from_str("server/version.txt"));
    r
}

/// The contents of the candidate files, as sequences.
pub open spec fn source_views(cs: Seq<Option<String>>) -> Seq<Option<Seq<char>>> {
    cs.map_values(
        |c: Option<String>|
            match c {
                Some(s) => Some(s@),
                None => None,
            },
    )
}

/// The first candidate source, from `i` on, whose content parses to a
/// version.
pub open spec fn spec_first_version(cs: Seq<Option<Seq<char>>>, i: int) -> Option<
    (Seq<char>, Option<Seq<char>>),
>
    decreases cs.len() - i,
{
    if i < 0 || i >= cs.len() {
        None
    } else {
        match cs[i] {
            Some(c) => if spec_parse_version(c) is Some {
                spec_parse_version(c)
            } else {
                spec_first_version(cs, i + 1)
            },
            None => spec_first_version(cs, i + 1),
        }
    }
}

/// Searches the candidate contents in order: an unreadable file or blank
/// content falls through to the next candidate; the first content that
/// parses yields the version.
pub fn version_from_sources(contents: &Vec<Option<String>>) -> (r: Option<VersionInfo>)
    ensures
        ({
            let v = spec_first_version(source_views(contents@), 0);
            &&& (r is Some <==> v is Some)
            &&& r is Some ==> r->0.commit@ == (v->0).0
            &&& r is Some ==> (r->0.date is Some <==> (v->0).1 is Some)
            &&& r is Some && r->0.date is Some ==> r->0.date->0@ == ((v->0).1)->0
        }),
{
    let ghost views = source_views(contents@);
    let mut i: usize = 0;
    while i < contents.len()
        invariant
            views == source_views(contents@),
            views.len() == contents@.len(),
            0 <= i <= contents@.len(),
            spec_first_version(views, 0) == spec_first_version(views, i as int),
        decreases contents@.len() - i,
    {
        match &contents[i] {
            Some(content) => {
                match parse_version_content(content.as_str()) {
                    Some(v) => {
                        return Some(v);
                    },
                    None => {},
                }
            },
            None => {},
        }
        proof {
            assert(spec_first_version(views, i as int) == spec_first_version(views, i + 1));
        }
        i = i + 1;
    }
    None
}

} // verus!
