//! Cookies: parsing a raw cookie header, serializing a cookie set back
//! into a header, and reconciling an existing set with cookies carried
//! by a response.

use vstd::prelude::*;
use vstd::string::*;

verus! {

/// One cookie, a name/value pair. Equality is structural; a jar may hold
/// several cookies of the same name.
#[derive(Debug, PartialEq, Eq, Default)]
pub struct Cookie {
    pub name: String,
    pub value: String,
}

/// The mathematical model of a cookie: its name and value as character
/// sequences.
pub struct CookieModel {
    pub name: Seq<char>,
    pub value: Seq<char>,
}

impl View for Cookie {
    type V = CookieModel;

    open spec fn view(&self) -> CookieModel {
        CookieModel { name: self.name@, value: self.value@ }
    }
}

impl Clone for Cookie {
    fn clone(&self) -> (r: Self)
        ensures
            r == *self,
    {
        Cookie { name: self.name.clone(), value: self.value.clone() }
    }
}

/// The models of all cookies in a sequence, in order.
pub open spec fn jar(cs: Seq<Cookie>) -> Seq<CookieModel> {
    cs.map_values(|c: Cookie| c@)
}

/// A cookie-header segment that holds no `=` separator; the offending
/// segment is carried verbatim.
#[derive(Debug, PartialEq, Eq)]
pub struct ParseCookieError(pub String);

/// A `"; "` separator starts at position `i` of `s`.
pub open spec fn has_sep_at(s: Seq<char>, i: int) -> bool {
    0 <= i && i + 2 <= s.len() && s[i] == ';' && s[i + 1] == ' '
}

/// The position of the first `"; "` separator at or after `from`, if any.
pub open spec fn find_sep(s: Seq<char>, from: int) -> Option<int>
    decreases s.len() - from,
{
    if 0 <= from && from + 2 <= s.len() {
        if has_sep_at(s, from) {
            Some(from)
        } else {
            find_sep(s, from + 1)
        }
    } else {
        None
    }
}

pub proof fn lemma_find_sep_props(s: Seq<char>, from: int)
    requires
        0 <= from <= s.len(),
    ensures
        match find_sep(s, from) {
            Some(j) => from <= j && j + 2 <= s.len() && has_sep_at(s, j) && (forall|k: int|
                from <= k < j ==> !has_sep_at(s, k)),
            None => forall|k: int| from <= k ==> !has_sep_at(s, k),
        },
    decreases s.len() - from,
{
    if 0 <= from && from + 2 <= s.len() && !has_sep_at(s, from) {
        lemma_find_sep_props(s, from + 1);
    }
}

/// The position of the first `=` at or after `from`, if any.
pub open spec fn find_eq(s: Seq<char>, from: int) -> Option<int>
    decreases s.len() - from,
{
    if 0 <= from && from < s.len() {
        if s[from] == '=' {
            Some(from)
        } else {
            find_eq(s, from + 1)
        }
    } else {
        None
    }
}

pub proof fn lemma_find_eq_props(s: Seq<char>, from: int)
    requires
        0 <= from <= s.len(),
    ensures
        match find_eq(s, from) {
            Some(j) => from <= j < s.len() && s[j] == '=' && (forall|k: int|
                from <= k < j ==> s[k] != '='),
            None => forall|k: int| from <= k < s.len() ==> s[k] != '=',
        },
    decreases s.len() - from,
{
    if 0 <= from && from < s.len() && s[from] != '=' {
        lemma_find_eq_props(s, from + 1);
    }
}

/// A segment parses to a cookie by splitting at its first `=`; a segment
/// with no `=` does not parse.
pub open spec fn parse_segment(seg: Seq<char>) -> Option<CookieModel> {
    match find_eq(seg, 0) {
        Some(k) => Some(
            CookieModel { name: seg.subrange(0, k), value: seg.subrange(k + 1, seg.len() as int) },
        ),
        None => None,
    }
}

/// Parsing the tail of a header that starts at `from`: segments are the
/// maximal stretches between `"; "` separators, each must parse, and the
/// first segment with no `=` fails the whole parse.
pub open spec fn parse_from(s: Seq<char>, from: int) -> Result<Seq<CookieModel>, Seq<char>>
    decreases s.len() - from,
    via parse_from_decreases
{
    let hi = match find_sep(s, from) {
        Some(j) => j,
        None => s.len() as int,
    };
    let seg = s.subrange(from, hi);
    match parse_segment(seg) {
        None => Err(seg),
        Some(m) => match find_sep(s, from) {
            Some(j) => match parse_from(s, j + 2) {
                Ok(rest) => Ok(seq![m] + rest),
                Err(e) => Err(e),
            },
            None => Ok(seq![m]),
        },
    }
}

#[via_fn]
proof fn parse_from_decreases(s: Seq<char>, from: int) {
    if 0 <= from && from <= s.len() {
        lemma_find_sep_props(s, from);
    }
}

/// What a whole cookie header denotes: the cookie models in input order,
/// or the first segment with no `=`.
pub open spec fn parse_cookies(s: Seq<char>) -> Result<Seq<CookieModel>, Seq<char>> {
    parse_from(s, 0)
}

/// The segments of a header from position `from` on: the stretches
/// between consecutive `"; "` separators.
pub open spec fn segments_from(s: Seq<char>, from: int) -> Seq<Seq<char>>
    decreases s.len() - from,
    via segments_from_decreases
{
    match find_sep(s, from) {
        Some(j) => seq![s.subrange(from, j)] + segments_from(s, j + 2),
        None => seq![s.subrange(from, s.len() as int)],
    }
}

#[via_fn]
proof fn segments_from_decreases(s: Seq<char>, from: int) {
    if 0 <= from && from <= s.len() {
        lemma_find_sep_props(s, from);
    }
}

/// The segments of a whole header.
pub open spec fn segments(s: Seq<char>) -> Seq<Seq<char>> {
    segments_from(s, 0)
}

/// The first segment of the list that holds no `=`, if any.
pub open spec fn first_unparsable(segs: Seq<Seq<char>>) -> Option<Seq<char>>
    decreases segs.len(),
{
    if segs.len() == 0 {
        None
    } else if parse_segment(segs.first()) is None {
        Some(segs.first())
    } else {
        first_unparsable(segs.drop_first())
    }
}

proof fn lemma_parse_from_segments(s: Seq<char>, from: int)
    requires
        0 <= from <= s.len(),
    ensures
        (parse_from(s, from) is Err) <==> (first_unparsable(segments_from(s, from)) is Some),
        parse_from(s, from) matches Err(e) ==> first_unparsable(segments_from(s, from)) == Some(e),
        parse_from(s, from) matches Ok(ms) ==> ms.len() == segments_from(s, from).len() && (forall|
            i: int,
        |
            0 <= i < ms.len() ==> Some(ms[i]) == parse_segment(segments_from(s, from)[i])),
    decreases s.len() - from,
{
    reveal_with_fuel(first_unparsable, 2);
    lemma_find_sep_props(s, from);
    let segs = segments_from(s, from);
    if find_sep(s, from) is Some {
        let j = find_sep(s, from)->Some_0;
        lemma_parse_from_segments(s, j + 2);
        let rsegs = segments_from(s, j + 2);
        assert(segs.drop_first() =~= rsegs);
        assert(segs.first() == s.subrange(from, j));
        if parse_from(s, from) is Ok {
            let ms = parse_from(s, from)->Ok_0;
            let rest = parse_from(s, j + 2)->Ok_0;
            assert forall|i: int| 0 <= i < ms.len() implies Some(ms[i]) == parse_segment(
                segs[i],
            ) by {
                if i > 0 {
                    assert(Some(rest[i - 1]) == parse_segment(rsegs[i - 1]));
                }
            }
        }
    } else {
        assert(segs.len() == 1);
    }
}

/// The law of failing parses: a header fails to parse exactly when one of
/// its segments holds no `=`, and the reported segment is then the first
/// such segment, whatever stands before or after it. A successful parse
/// yields one cookie per segment, in input order.
pub proof fn lemma_parse_names_first_bad_segment(s: Seq<char>)
    ensures
        (parse_cookies(s) is Err) <==> (first_unparsable(segments(s)) is Some),
        parse_cookies(s) matches Err(e) ==> first_unparsable(segments(s)) == Some(e),
        parse_cookies(s) matches Ok(ms) ==> ms.len() == segments(s).len() && (forall|i: int|
            0 <= i < ms.len() ==> Some(ms[i]) == parse_segment(segments(s)[i])),
{
    lemma_parse_from_segments(s, 0);
}

/// The first `"; "` separator of `s` at or after `from`, by linear scan.
fn find_sep_exec(s: &str, from: usize) -> (r: Option<usize>)
    requires
        from <= s@.len(),
    ensures
        match r {
            Some(j) => find_sep(s@, from as int) == Some(j as int) && from <= j && j + 2 <= s@.len(),
            None => find_sep(s@, from as int) is None,
        },
{
    let len = s.unicode_len();
    let mut i: usize = from;
    loop
        invariant
            from <= i <= len,
            len == s@.len(),
            forall|k: int| from <= k < i ==> !has_sep_at(s@, k),
        decreases len - i,
    {
        if len - i < 2 {
            proof {
                lemma_find_sep_props(s@, from as int);
            }
            return None;
        }
        if s.get_char(i) == ';' && s.get_char(i + 1) == ' ' {
            proof {
                assert(has_sep_at(s@, i as int));
                lemma_find_sep_props(s@, from as int);
                if find_sep(s@, from as int) is Some {
                    let j = find_sep(s@, from as int)->Some_0;
                    if j < i {
                        assert(!has_sep_at(s@, j));
                    }
                    if i < j {
                        assert(!has_sep_at(s@, i as int));
                    }
                } else {
                    assert(!has_sep_at(s@, i as int));
                }
            }
            return Some(i);
        }
        i = i + 1;
    }
}

/// Splits one segment at its first `=`, if it has one.
fn split_segment(seg: &str) -> (r: Option<Cookie>)
    ensures
        match parse_segment(seg@) {
            Some(m) => r matches Some(c) && c@ == m,
            None => r is None,
        },
{
    let n = seg.unicode_len();
    let mut k: usize = 0;
    loop
        invariant
            0 <= k <= n,
            n == seg@.len(),
            forall|t: int| 0 <= t < k ==> seg@[t] != '=',
        decreases n - k,
    {
        if k == n {
            proof {
                lemma_find_eq_props(seg@, 0);
            }
            return None;
        }
        if seg.get_char(k) == '=' {
            proof {
                lemma_find_eq_props(seg@, 0);
            }
            let name = seg.substring_char(0, k);
            let value = seg.substring_char(k + 1, n);
            return Some(
                Cookie { name: String::from_str(name), value: String::from_str(value) },
            );
        }
        k = k + 1;
    }
}

impl Cookie {
    /// Parses a raw cookie header: segments are separated by `"; "`, and
    /// each segment must hold at least one `=`; the name is what stands
    /// before the first `=`, the value everything after it. The first
    /// segment with no `=` fails the whole parse and is reported.
    pub fn from_str(s: &str) -> (r: Result<Vec<Cookie>, ParseCookieError>)
        ensures
            match r {
                Ok(cs) => parse_cookies(s@) == Ok::<Seq<CookieModel>, Seq<char>>(jar(cs@)),
                Err(e) => parse_cookies(s@) == Err::<Seq<CookieModel>, Seq<char>>(e.0@),
            },
    {
        let len = s.unicode_len();
        let mut cookies: Vec<Cookie> = Vec::new();
        let mut lo: usize = 0;
        loop
            invariant
                lo <= len,
                len == s@.len(),
                parse_from(s@, lo as int) matches Ok(rest) ==> parse_cookies(s@) == Ok::<
                    Seq<CookieModel>,
                    Seq<char>,
                >(jar(cookies@) + rest),
                parse_from(s@, lo as int) matches Err(e) ==> parse_cookies(s@) == Err::<
                    Seq<CookieModel>,
                    Seq<char>,
                >(e),
            decreases len - lo,
        {
            let sep = find_sep_exec(s, lo);
            let hi = match sep {
                Some(j) => j,
                None => len,
            };
            let seg = s.substring_char(lo, hi);
            match split_segment(seg) {
                None => {
                    return Err(ParseCookieError(String::from_str(seg)));
                },
                Some(c) => {
                    proof {
                        assert(jar(cookies@.push(c)) =~= jar(cookies@) + seq![c@]);
                        if find_sep(s@, lo as int) is Some {
                            let j = find_sep(s@, lo as int)->Some_0;
                            if parse_from(s@, j + 2) is Ok {
                                let rest2 = parse_from(s@, j + 2)->Ok_0;
                                assert((jar(cookies@) + seq![c@]) + rest2 =~= jar(cookies@) + (
                                seq![c@] + rest2));
                            }
                        }
                    }
                    cookies.push(c);
                    match sep {
                        Some(j) => {
                            lo = j + 2;
                        },
                        None => {
                            return Ok(cookies);
                        },
                    }
                },
            }
        }
    }
}

/// What one cookie contributes to a serialized header.
pub open spec fn cookie_str(c: CookieModel) -> Seq<char> {
    c.name + seq!['='] + c.value
}

/// The serialized form of a cookie set: `name=value` pairs joined by
/// `"; "`, in stored order.
pub open spec fn join_cookies(cs: Seq<CookieModel>) -> Seq<char>
    decreases cs.len(),
{
    if cs.len() == 0 {
        Seq::empty()
    } else if cs.len() == 1 {
        cookie_str(cs[0])
    } else {
        join_cookies(cs.drop_last()) + seq![';', ' '] + cookie_str(cs.last())
    }
}

/// Serializes a cookie set into the header it denotes.
pub fn serialize_cookies(cs: &Vec<Cookie>) -> (r: String)
    ensures
        r@ == join_cookies(jar(cs@)),
{
    let mut out = String::new();
    let mut i: usize = 0;
    while i < cs.len()
        invariant
            i <= cs.len(),
            out@ == join_cookies(jar(cs@).subrange(0, i as int)),
        decreases cs.len() - i,
    {
        if i > 0 {
            out.append("; ");
        }
        out.append(cs[i].name.as_str());
        out.append("=");
        out.append(cs[i].value.as_str());
        proof {
            reveal_strlit("; ");
            reveal_strlit("=");
            assert("; "@ =~= seq![';', ' ']);
            assert("="@ =~= seq!['=']);
            let p = jar(cs@).subrange(0, i as int);
            let q = jar(cs@).subrange(0, i as int + 1);
            assert(q.drop_last() =~= p);
            assert(q.last() == jar(cs@)[i as int]);
            assert(out@ =~= join_cookies(q));
        }
        i = i + 1;
    }
    proof {
        assert(jar(cs@).subrange(0, cs.len() as int) =~= jar(cs@));
    }
    out
}

/// Some cookie of the set carries this name.
pub open spec fn has_name(cs: Seq<CookieModel>, name: Seq<char>) -> bool {
    exists|i: int| 0 <= i < cs.len() && cs[i].name == name
}

/// The cookies of `existing` whose names do not occur in `incoming`.
pub open spec fn drop_named(existing: Seq<CookieModel>, incoming: Seq<CookieModel>) -> Seq<
    CookieModel,
> {
    existing.filter(|c: CookieModel| !has_name(incoming, c.name))
}

/// The reconciled cookie set: cookies of `existing` whose names recur in
/// `incoming` are dropped, and all of `incoming` is appended after the
/// survivors.
pub open spec fn merge_model(existing: Seq<CookieModel>, incoming: Seq<CookieModel>) -> Seq<
    CookieModel,
> {
    drop_named(existing, incoming) + incoming
}

/// Does some cookie of `cs` carry the name?
fn name_in(cs: &Vec<Cookie>, name: &String) -> (r: bool)
    ensures
        r == has_name(jar(cs@), name@),
{
    let mut i: usize = 0;
    while i < cs.len()
        invariant
            i <= cs.len(),
            forall|k: int| 0 <= k < i ==> jar(cs@)[k].name != name@,
        decreases cs.len() - i,
    {
        if cs[i].name == *name {
            proof {
                assert(jar(cs@)[i as int].name == name@);
            }
            return true;
        }
        i = i + 1;
    }
    false
}

/// Merges response cookies into an existing set: an existing cookie whose
/// name occurs in `incoming` is discarded, and every incoming cookie is
/// appended after the surviving ones, so incoming values win and move to
/// the end.
pub fn merge_cookies(existing: &Vec<Cookie>, incoming: &Vec<Cookie>) -> (r: Vec<Cookie>)
    ensures
        jar(r@) == merge_model(jar(existing@), jar(incoming@)),
{
    let mut out: Vec<Cookie> = Vec::new();
    proof {
        reveal(Seq::filter);
        assert(jar(out@) =~= drop_named(jar(existing@).subrange(0, 0), jar(incoming@)));
    }
    let mut i: usize = 0;
    while i < existing.len()
        invariant
            i <= existing.len(),
            jar(out@) == drop_named(jar(existing@).subrange(0, i as int), jar(incoming@)),
        decreases existing.len() - i,
    {
        let keep = !name_in(incoming, &existing[i].name);
        proof {
            reveal(Seq::filter);
            let p = jar(existing@).subrange(0, i as int);
            let q = jar(existing@).subrange(0, i as int + 1);
            assert(q.drop_last() =~= p);
            assert(q.last() == jar(existing@)[i as int]);
        }
        if keep {
            out.push(existing[i].clone());
        }
        proof {
            reveal(Seq::filter);
            assert(jar(out@) =~= drop_named(
                jar(existing@).subrange(0, i as int + 1),
                jar(incoming@),
            ));
        }
        i = i + 1;
    }
    proof {
        assert(jar(existing@).subrange(0, existing.len() as int) =~= jar(existing@));
        assert(drop_named(jar(existing@), jar(incoming@)) + jar(incoming@).subrange(0, 0)
            =~= drop_named(jar(existing@), jar(incoming@)));
    }
    let mut j: usize = 0;
    while j < incoming.len()
        invariant
            j <= incoming.len(),
            jar(out@) == drop_named(jar(existing@), jar(incoming@)) + jar(incoming@).subrange(
                0,
                j as int,
            ),
        decreases incoming.len() - j,
    {
        let ghost prev = jar(out@);
        out.push(incoming[j].clone());
        proof {
            assert(jar(out@) =~= prev.push(incoming@[j as int]@));
            assert(jar(incoming@).subrange(0, j as int + 1) =~= jar(incoming@).subrange(
                0,
                j as int,
            ).push(incoming@[j as int]@));
            assert(jar(out@) =~= drop_named(jar(existing@), jar(incoming@)) + jar(
                incoming@,
            ).subrange(0, j as int + 1));
        }
        j = j + 1;
    }
    proof {
        assert(jar(incoming@).subrange(0, incoming.len() as int) =~= jar(incoming@));
        assert(jar(out@) == merge_model(jar(existing@), jar(incoming@)));
    }
    out
}

/// A character that an HTTP header value may carry: horizontal tab, or a
/// character at or above the space that is not `delete`. Every character
/// outside ASCII encodes to bytes above the space, so it is acceptable
/// wherever it stands.
pub open spec fn valid_header_char(c: char) -> bool {
    c == '\t' || (32 <= c as u32 && c as u32 != 127)
}

/// A string that can stand as an HTTP header value.
pub open spec fn valid_header_value(s: Seq<char>) -> bool {
    forall|i: int| 0 <= i < s.len() ==> valid_header_char(s[i])
}

/// Decides whether `s` can be encoded as an HTTP header value.
pub fn header_value_ok(s: &str) -> (r: bool)
    ensures
        r == valid_header_value(s@),
{
    let len = s.unicode_len();
    let mut i: usize = 0;
    while i < len
        invariant
            i <= len,
            len == s@.len(),
            forall|k: int| 0 <= k < i ==> valid_header_char(s@[k]),
        decreases len - i,
    {
        let c = s.get_char(i);
        if !(c == '\t' || (c as u32 >= 32 && c as u32 != 127)) {
            assert(!valid_header_char(s@[i as int]));
            return false;
        }
        i = i + 1;
    }
    true
}

} // verus!
