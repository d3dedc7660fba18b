//! Text assembly: concatenation, separator-joined lists, byte decoding.
//!
//! Command-line tokens and the child's search path are strings built from
//! pieces; `join_with` says what a separator-joined list is, and the exec
//! functions here build such strings. Decoding the child's captured bytes
//! goes through `String::from_utf8`, stated over vstd's UTF-8 model.

use vstd::prelude::*;
use vstd::utf8::decode_utf8;
use vstd::utf8::valid_utf8;

verus! {

/// The given parts joined by the separator: the parts in order, with one
/// separator between each adjacent pair, and nothing else.
pub open spec fn join_with(parts: Seq<Seq<char>>, sep: Seq<char>) -> Seq<char>
    decreases parts.len(),
{
    if parts.len() == 0 {
        seq![]
    } else if parts.len() == 1 {
        parts[0]
    } else {
        parts[0] + sep + join_with(parts.skip(1), sep)
    }
}

/// Joining one more part appends a separator and that part (once the list is
/// nonempty).
pub proof fn lemma_join_with_push(parts: Seq<Seq<char>>, sep: Seq<char>, part: Seq<char>)
    requires
        parts.len() > 0,
    ensures
        join_with(parts.push(part), sep) == join_with(parts, sep) + sep + part,
    decreases parts.len(),
{
    if parts.len() == 1 {
        assert(parts.push(part).skip(1) =~= seq![part]);
        assert(join_with(seq![part], sep) == part);
        assert(parts.push(part)[0] == parts[0]);
        assert(join_with(parts.push(part), sep) =~= join_with(parts, sep) + sep + part);
    } else {
        lemma_join_with_push(parts.skip(1), sep, part);
        assert(parts.push(part).skip(1) =~= parts.skip(1).push(part));
        assert(join_with(parts.push(part), sep) =~= join_with(parts, sep) + sep + part);
    }
}

/// Joining the concatenation of two nonempty lists splits at the seam.
pub proof fn lemma_join_with_concat(a: Seq<Seq<char>>, b: Seq<Seq<char>>, sep: Seq<char>)
    requires
        a.len() > 0,
        b.len() > 0,
    ensures
        join_with(a + b, sep) == join_with(a, sep) + sep + join_with(b, sep),
    decreases a.len(),
{
    if a.len() == 1 {
        assert((a + b).skip(1) =~= b);
        assert(join_with(a + b, sep) =~= join_with(a, sep) + sep + join_with(b, sep));
    } else {
        lemma_join_with_concat(a.skip(1), b, sep);
        assert((a + b).skip(1) =~= a.skip(1) + b);
        assert(join_with(a + b, sep) =~= join_with(a, sep) + sep + join_with(b, sep));
    }
}

/// The character that separates entries of a path list: a semicolon on
/// Windows, a colon elsewhere.
pub open spec fn path_delim(windows: bool) -> Seq<char> {
    if windows {
        ";"@
    } else {
        ":"@
    }
}

/// The path-list delimiter of the given platform.
pub fn path_delim_str(windows: bool) -> (r: &'static str)
    ensures
        r@ == path_delim(windows),
{
    if windows {
        ";"
    } else {
        ":"
    }
}

/// The two strings, one after the other.
pub fn concat(prefix: &str, rest: &str) -> (r: String)
    ensures
        r@ == prefix@ + rest@,
{
    let mut s = prefix.to_owned();
    s.append(rest);
    s
}

/// The three strings, one after the other.
pub fn concat3(a: &str, b: &str, c: &str) -> (r: String)
    ensures
        r@ == a@ + b@ + c@,
{
    let mut s = a.to_owned();
    s.append(b);
    s.append(c);
    s
}

/// Joins the parts with the separator.
///
/// Relies on `itertools::intersperse`: the returned iterator yields the
/// items of the adapted iterator in order, with one clone of the separator
/// between each adjacent pair, which collects to exactly `join_with`.
#[verifier::external_body]
pub fn join(parts: &Vec<String>, sep: &str) -> (r: String)
    ensures
        r@ == join_with(parts.deep_view(), sep@),
{
    itertools::intersperse(parts.iter().map(|p| p.as_str()), sep).collect()
}

/// Joins the parts with the separator, one piece at a time.
pub fn join_parts(parts: &Vec<String>, sep: &str) -> (r: String)
    ensures
        r@ == join_with(parts.deep_view(), sep@),
{
    if parts.len() == 0 {
        return String::new();
    }
    let mut s = parts[0].clone();
    proof {
        assert(parts.deep_view().take(1) =~= seq![parts.deep_view()[0]]);
    }
    let mut i: usize = 1;
    while i < parts.len()
        invariant
            1 <= i <= parts.len(),
            parts.deep_view().len() == parts@.len(),
            s@ =~= join_with(parts.deep_view().take(i as int), sep@),
        decreases parts.len() - i,
    {
        s.append(sep);
        s.append(parts[i].as_str());
        proof {
            lemma_join_with_push(parts.deep_view().take(i as int), sep@, parts.deep_view()[i as int]);
            assert(parts.deep_view().take(i as int + 1) =~= parts.deep_view().take(
                i as int,
            ).push(parts.deep_view()[i as int]));
            assert(s@ =~= join_with(parts.deep_view().take(i as int + 1), sep@));
        }
        i = i + 1;
    }
    proof {
        assert(parts.deep_view().take(parts@.len() as int) =~= parts.deep_view());
    }
    s
}

/// A copy of a list of strings.
pub fn clone_string_vec(v: &Vec<String>) -> (r: Vec<String>)
    ensures
        r@ == v@,
{
    let mut r: Vec<String> = Vec::new();
    let mut i: usize = 0;
    while i < v.len()
        invariant
            i <= v.len(),
            r@ =~= v@.take(i as int),
        decreases v.len() - i,
    {
        r.push(v[i].clone());
        proof {
            assert(r@ =~= v@.take(i + 1 as int));
        }
        i = i + 1;
    }
    proof {
        assert(r@ =~= v@);
    }
    r
}

/// `n` is the count of valid leading UTF-8 bytes: the `n`-byte prefix is
/// valid, and no longer prefix is.
pub open spec fn valid_prefix_len(bytes: Seq<u8>, n: int) -> bool {
    &&& 0 <= n <= bytes.len()
    &&& valid_utf8(bytes.take(n))
    &&& forall|m: int| n < m <= bytes.len() ==> !valid_utf8(bytes.take(m))
}

/// Decodes the bytes as UTF-8, or reports how many leading bytes were valid.
///
/// Relies on `String::from_utf8`: it succeeds exactly on valid UTF-8 and
/// returns the decoded characters; on failure, `FromUtf8Error::utf8_error`
/// and `Utf8Error::valid_up_to` give the maximum index up to which the
/// bytes are valid UTF-8.
#[verifier::external_body]
pub fn string_from_utf8(bytes: Vec<u8>) -> (r: Result<String, usize>)
    ensures
        match r {
            Ok(s) => valid_utf8(bytes@) && s@ == decode_utf8(bytes@),
            Err(n) => !valid_utf8(bytes@) && valid_prefix_len(bytes@, n as int),
        },
{
    match String::from_utf8(bytes) {
        Ok(s) => Ok(s),
        Err(e) => Err(e.utf8_error().valid_up_to()),
    }
}

/// What `String::from_utf8_lossy` makes of the given bytes: a function of
/// the bytes alone.
pub uninterp spec fn utf8_lossy(bytes: Seq<u8>) -> Seq<char>;

/// Decodes the bytes as UTF-8, replacing invalid sequences.
///
/// Relies on `String::from_utf8_lossy`: the result depends on the bytes
/// alone, and valid UTF-8 comes back decoded unchanged.
#[verifier::external_body]
pub fn lossy_utf8(bytes: &Vec<u8>) -> (r: String)
    ensures
        r@ == utf8_lossy(bytes@),
        valid_utf8(bytes@) ==> r@ == decode_utf8(bytes@),
{
    String::from_utf8_lossy(bytes.as_slice()).into_owned()
}

} // verus!
