use vstd::prelude::*;
use crate::text::{chars_of, find_from, matches_at, occurs_at};

verus! {

/// `pat` stands in `s` at `i` and nowhere before.
pub open spec fn first_at(s: Seq<char>, pat: Seq<char>, i: int) -> bool {
    occurs_at(s, pat, i) && forall|j: int| 0 <= j < i ==> !occurs_at(s, pat, j)
}

pub open spec fn open_marker() -> Seq<char> {
    "GET /open?url="@
}

pub open spec fn protocol_marker() -> Seq<char> {
    " HTTP"@
}

/// `t` is the encoded target of an open request: what lies between the
/// first `GET /open?url=` and the first ` HTTP` after it.
pub open spec fn is_open_target(request: Seq<char>, t: Seq<char>) -> bool {
    exists|i: int, j: int| #[trigger] target_split(request, i, j) && t == target_at(request, i, j)
}

/// The command marker first stands at `i`, and the protocol marker first
/// stands `j` characters after its end.
pub open spec fn target_split(request: Seq<char>, i: int, j: int) -> bool {
    let start = i + open_marker().len();
    &&& first_at(request, open_marker(), i)
    &&& first_at(request.subrange(start, request.len() as int), protocol_marker(), j)
}

pub open spec fn target_at(request: Seq<char>, i: int, j: int) -> Seq<char> {
    let start = i + open_marker().len();
    request.subrange(start, start + j)
}

/// A request carries an open command when it holds the marker and, after
/// the first one, the protocol marker.
pub open spec fn has_open_target(request: Seq<char>) -> bool {
    exists|t: Seq<char>| is_open_target(request, t)
}

/// The percent-decoded text, or `None` when the decoded bytes are not UTF-8.
pub uninterp spec fn percent_decoded(s: Seq<char>) -> Option<Seq<char>>;

/// Relies on `urlencoding::decode`: the text is left as it is when it holds
/// no `%`; otherwise the escapes are decoded, and a result that is not
/// UTF-8 is an error, mapped to `None`.
#[verifier::external_body]
fn percent_decode(s: &str) -> (r: Option<String>)
    ensures
        match r {
            Some(d) => percent_decoded(s@) == Some(d@),
            None => percent_decoded(s@) is None,
        },
        (forall|i: int| 0 <= i < s@.len() ==> s@[i] != '%') ==> r is Some && r->0@ == s@,
{
    match urlencoding::decode(s) {
        Ok(d) => Some(d.into_owned()),
        Err(_) => None,
    }
}

/// The encoded target of an open request, if the request is one.
pub fn open_target(request: &str) -> (r: Option<String>)
    ensures
        r is Some ==> is_open_target(request@, r->0@),
        r is None ==> !has_open_target(request@),
{
    let n = request.unicode_len();
    let cs = chars_of(request);
    let marker = chars_of("GET /open?url=");
    let proto = chars_of(" HTTP");
    match find_from(&cs, &marker) {
        None => {
            assert forall|t: Seq<char>| !is_open_target(request@, t) by {
            }
            None
        },
        Some(i) => {
            let start = i + marker.len();
            let rest = request.substring_char(start, n);
            let rcs = chars_of(rest);
            match find_from(&rcs, &proto) {
                None => {
                    assert forall|t: Seq<char>| !is_open_target(request@, t) by {
                        if is_open_target(request@, t) {
                            let (i2, j2) = choose|i2: int, j2: int|
                                #[trigger] target_split(request@, i2, j2) && t == target_at(
                                    request@,
                                    i2,
                                    j2,
                                );
                            if i2 < i {
                            } else if i < i2 {
                            } else {
                                assert(occurs_at(rest@, proto@, j2));
                            }
                        }
                    }
                    None
                },
                Some(j) => {
                    let t = rest.substring_char(0, j);
                    assert(t@ == request@.subrange(start as int, start + j));
                    assert(target_split(request@, i as int, j as int));
                    assert(is_open_target(request@, t@));
                    Some(String::from_str(t))
                },
            }
        },
    }
}

/// The decoded address that an open request asks for: empty when the
/// request carries no open command or its target does not decode.
pub open spec fn requested(request: Seq<char>, decoded: Option<Seq<char>>) -> Seq<char> {
    match decoded {
        Some(d) => d,
        None => Seq::empty(),
    }
}

/// The address that an open request names, percent-decoded; an undecodable
/// target gives the empty text. `None` when the request is no open command.
pub fn requested_url(request: &str) -> (r: Option<String>)
    ensures
        r is None <==> !has_open_target(request@),
        r is Some ==> exists|t: Seq<char>|
            is_open_target(request@, t) && r->0@ == requested(t, percent_decoded(t)),
{
    match open_target(request) {
        None => None,
        Some(t) => match percent_decode(t.as_str()) {
            Some(d) => Some(d),
            None => Some(String::new()),
        },
    }
}

pub open spec fn local_server() -> Seq<char> {
    "http://localhost:3000"@
}

/// An address as fetched: absolute addresses as they are, others against
/// the local application server.
pub open spec fn absolute(url: Seq<char>) -> Seq<char> {
    if occurs_at(url, "http"@, 0) {
        url
    } else if occurs_at(url, "/"@, 0) {
        local_server() + url
    } else {
        local_server() + "/"@ + url
    }
}

/// The text after the last `/`, or the whole text when it holds none.
pub open spec fn after_last_slash(s: Seq<char>) -> Seq<char>
    decreases s.len(),
{
    if s.len() == 0 {
        s
    } else if s.last() == '/' {
        Seq::empty()
    } else {
        after_last_slash(s.drop_last()).push(s.last())
    }
}

fn starts_with(cs: &Vec<char>, prefix: &str) -> (r: bool)
    ensures
        r == occurs_at(cs@, prefix@, 0),
{
    let p = chars_of(prefix);
    matches_at(cs, &p, 0)
}

/// The address to fetch for a link of the application.
pub fn absolute_url(url: &str) -> (r: String)
    ensures
        r@ == absolute(url@),
{
    let cs = chars_of(url);
    if starts_with(&cs, "http") {
        String::from_str(url)
    } else if starts_with(&cs, "/") {
        let mut s = String::from_str("http://localhost:3000");
        s.append(url);
        s
    } else {
        let mut s = String::from_str("http://localhost:3000");
        s.append("/");
        s.append(url);
        s
    }
}

/// The name under which a downloaded document is saved: the last segment
/// of its address.
pub fn download_file_name(url: &str) -> (r: String)
    ensures
        r@ == after_last_slash(url@),
{
    let n = url.unicode_len();
    let mut i: usize = n;
    assert(url@.subrange(0, n as int) =~= url@);
    assert(after_last_slash(url@) =~= after_last_slash(url@.subrange(0, n as int)) + url@.subrange(
        n as int,
        n as int,
    ));
    while i > 0 && url.get_char(i - 1) != '/'
        invariant
            n == url@.len(),
            i <= n,
            after_last_slash(url@) == after_last_slash(url@.subrange(0, i as int)) + url@.subrange(
                i as int,
                n as int,
            ),
        decreases i,
    {
        let ghost pre = url@.subrange(0, i as int);
        assert(pre.drop_last() =~= url@.subrange(0, i - 1));
        assert(url@.subrange(i - 1, n as int) =~= seq![url@[i - 1]] + url@.subrange(i as int, n as int));
        assert(after_last_slash(pre) == after_last_slash(pre.drop_last()).push(pre.last()));
        i = i - 1;
        assert(after_last_slash(url@.subrange(0, i as int)) + url@.subrange(i as int, n as int)
            =~= after_last_slash(pre) + url@.subrange(i + 1, n as int));
    }
    if i > 0 {
        let ghost pre = url@.subrange(0, i as int);
        assert(pre.last() == '/');
        assert(after_last_slash(pre) =~= Seq::<char>::empty());
    } else {
        assert(url@.subrange(0, 0) =~= Seq::<char>::empty());
    }
    assert(after_last_slash(url@) =~= url@.subrange(i as int, n as int));
    String::from_str(url.substring_char(i, n))
}

} // verus!
