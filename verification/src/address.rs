//! The addresses of remote places, as they are kept: without a password.

use crate::text::{characters, matches_at, occurs_at, text_between};
use vstd::prelude::*;

verus! {

/// The first wanted place from `from` on, or `to` where there is none before it.
pub open spec fn first_wanted(from: int, to: int, wanted: spec_fn(int) -> bool) -> int
    decreases to - from,
{
    if from >= to || wanted(from) {
        from
    } else {
        first_wanted(from + 1, to, wanted)
    }
}

/// The last wanted place from `from` on and before `to`.
pub open spec fn last_wanted(from: int, to: int, wanted: spec_fn(int) -> bool) -> Option<int>
    decreases to - from,
{
    if from >= to {
        None
    } else if wanted(to - 1) {
        Some(to - 1)
    } else {
        last_wanted(from, to - 1, wanted)
    }
}

/// Where the scheme of an address is over.
pub open spec fn ends_scheme(address: Seq<char>) -> spec_fn(int) -> bool {
    |i: int| occurs_at(address, "://"@, i)
}

/// Where the part of an address is over that names the host.
pub open spec fn ends_host(address: Seq<char>) -> spec_fn(int) -> bool {
    |i: int| address[i] == '/' || address[i] == '?' || address[i] == '#'
}

/// Where the host is told apart from who connects to it.
pub open spec fn ends_user(address: Seq<char>) -> spec_fn(int) -> bool {
    |i: int| address[i] == '@'
}

/// Whether a colon or a semicolon stands at a place, by itself or escaped, and before `to`.
pub open spec fn is_separator(address: Seq<char>, to: int, i: int) -> bool {
    ||| address[i] == ':'
    ||| address[i] == ';'
    ||| {
        &&& i + 2 < to
        &&& address[i] == '%'
        &&& address[i + 1] == '3'
        &&& (address[i + 2] == 'A' || address[i + 2] == 'a' || address[i + 2] == 'B' || address[i
            + 2] == 'b')
    }
}

/// Where the name of who connects is over.
pub open spec fn ends_name(address: Seq<char>, to: int) -> spec_fn(int) -> bool {
    |i: int| is_separator(address, to, i)
}

/// An address without what follows the name of who connects: a password, or other things told
/// along.
pub open spec fn without_secret(address: Seq<char>) -> Seq<char> {
    let scheme_end = first_wanted(0, address.len() as int, ends_scheme(address));
    if scheme_end >= address.len() {
        address
    } else {
        let from = scheme_end + 3;
        let to = first_wanted(from, address.len() as int, ends_host(address));
        match last_wanted(from, to, ends_user(address)) {
            None => address,
            Some(at) => address.take(first_wanted(from, at, ends_name(address, at)))
                + address.skip(at),
        }
    }
}

fn place_of_scheme_end(address: &Vec<char>) -> (result: usize)
    ensures
        result == first_wanted(0, address@.len() as int, ends_scheme(address@)),
        result <= address@.len(),
        result < address@.len() ==> result + 3 <= address@.len(),
{
    let part: Vec<char> = characters("://");
    proof {
        reveal_strlit("://");
    }
    let mut i: usize = 0;
    while i < address.len() && !matches_at(address, &part, i)
        invariant
            i <= address@.len(),
            part@ == "://"@,
            first_wanted(0, address@.len() as int, ends_scheme(address@)) == first_wanted(
                i as int,
                address@.len() as int,
                ends_scheme(address@),
            ),
        decreases address@.len() - i,
    {
        i = i + 1;
    }
    i
}

fn place_of_host_end(address: &Vec<char>, from: usize) -> (result: usize)
    requires
        from <= address@.len(),
    ensures
        result == first_wanted(from as int, address@.len() as int, ends_host(address@)),
        from <= result <= address@.len(),
{
    let mut i: usize = from;
    while i < address.len() && address[i] != '/' && address[i] != '?' && address[i] != '#'
        invariant
            from <= i <= address@.len(),
            first_wanted(from as int, address@.len() as int, ends_host(address@)) == first_wanted(
                i as int,
                address@.len() as int,
                ends_host(address@),
            ),
        decreases address@.len() - i,
    {
        i = i + 1;
    }
    i
}

fn place_of_user_end(address: &Vec<char>, from: usize, to: usize) -> (result: Option<usize>)
    requires
        from <= to <= address@.len(),
    ensures
        match result {
            Some(at) => last_wanted(from as int, to as int, ends_user(address@)) == Some(at as int)
                && from <= at < to,
            None => last_wanted(from as int, to as int, ends_user(address@)) is None,
        },
{
    let mut i: usize = to;
    while i > from
        invariant
            from <= i <= to <= address@.len(),
            last_wanted(from as int, to as int, ends_user(address@)) == last_wanted(
                from as int,
                i as int,
                ends_user(address@),
            ),
        decreases i,
    {
        if address[i - 1] == '@' {
            return Some(i - 1);
        }
        i = i - 1;
    }
    None
}

fn place_of_name_end(address: &Vec<char>, from: usize, to: usize) -> (result: usize)
    requires
        from <= to <= address@.len(),
    ensures
        result == first_wanted(from as int, to as int, ends_name(address@, to as int)),
        from <= result <= to,
{
    let mut i: usize = from;
    while i < to
        invariant
            from <= i <= to <= address@.len(),
            first_wanted(from as int, to as int, ends_name(address@, to as int)) == first_wanted(
                i as int,
                to as int,
                ends_name(address@, to as int),
            ),
        decreases to - i,
    {
        let escaped: bool = to - i > 2 && address[i] == '%' && address[i + 1] == '3' && (address[i
            + 2] == 'A' || address[i + 2] == 'a' || address[i + 2] == 'B' || address[i + 2] == 'b');
        if escaped || address[i] == ':' || address[i] == ';' {
            return i;
        }
        i = i + 1;
    }
    i
}

/// An address without what follows the name of who connects.
pub fn address_without_secret(address: &str) -> (result: String)
    ensures
        result@ == without_secret(address@),
{
    let chars: Vec<char> = characters(address);
    let scheme_end: usize = place_of_scheme_end(&chars);
    if scheme_end >= chars.len() {
        return address.to_owned();
    }
    let from: usize = scheme_end + 3;
    let to: usize = place_of_host_end(&chars, from);
    match place_of_user_end(&chars, from, to) {
        None => address.to_owned(),
        Some(at) => {
            let name_end: usize = place_of_name_end(&chars, from, at);
            let mut result: String = text_between(&chars, 0, name_end);
            let rest: String = text_between(&chars, at, chars.len());
            result.append(rest.as_str());
            assert(chars@.subrange(0, name_end as int) == chars@.take(name_end as int));
            assert(chars@.subrange(at as int, chars@.len() as int) == chars@.skip(at as int));
            result
        },
    }
}

proof fn lemma_first_wanted(from: int, to: int, wanted: spec_fn(int) -> bool)
    requires
        from <= to,
    ensures
        from <= first_wanted(from, to, wanted) <= to,
        forall|i: int| from <= i < first_wanted(from, to, wanted) ==> !#[trigger] wanted(i),
        first_wanted(from, to, wanted) < to ==> wanted(first_wanted(from, to, wanted)),
    decreases to - from,
{
    if from < to && !wanted(from) {
        lemma_first_wanted(from + 1, to, wanted);
    }
}

proof fn lemma_is_first_wanted(from: int, to: int, wanted: spec_fn(int) -> bool, place: int)
    requires
        from <= place <= to,
        forall|i: int| from <= i < place ==> !#[trigger] wanted(i),
        place < to ==> wanted(place),
    ensures
        first_wanted(from, to, wanted) == place,
    decreases place - from,
{
    if from < place {
        assert(!wanted(from));
        lemma_is_first_wanted(from + 1, to, wanted, place);
    }
}

proof fn lemma_last_wanted(from: int, to: int, wanted: spec_fn(int) -> bool)
    ensures
        last_wanted(from, to, wanted) matches Some(place) ==> {
            &&& from <= place < to
            &&& wanted(place)
            &&& forall|i: int| place < i < to ==> !#[trigger] wanted(i)
        },
    decreases to - from,
{
    if from < to && !wanted(to - 1) {
        lemma_last_wanted(from, to - 1, wanted);
    }
}

proof fn lemma_is_last_wanted(from: int, to: int, wanted: spec_fn(int) -> bool, place: int)
    requires
        from <= place < to,
        wanted(place),
        forall|i: int| place < i < to ==> !#[trigger] wanted(i),
    ensures
        last_wanted(from, to, wanted) == Some(place),
    decreases to - place,
{
    if place < to - 1 {
        assert(!wanted(to - 1));
        lemma_is_last_wanted(from, to - 1, wanted, place);
    }
}

/// What is left of an address tells nothing more that could be left out: leaving it out again
/// changes nothing.
pub proof fn law_kept_address_stays(address: Seq<char>)
    ensures
        without_secret(without_secret(address)) == without_secret(address),
{
    reveal_strlit("://");
    let length = address.len() as int;
    lemma_first_wanted(0, length, ends_scheme(address));
    let scheme_end = first_wanted(0, length, ends_scheme(address));
    if scheme_end < length {
        let from = scheme_end + 3;
        assert(occurs_at(address, "://"@, scheme_end));
        lemma_first_wanted(from, length, ends_host(address));
        let to = first_wanted(from, length, ends_host(address));
        lemma_last_wanted(from, to, ends_user(address));
        match last_wanted(from, to, ends_user(address)) {
            None => {},
            Some(at) => {
                lemma_first_wanted(from, at, ends_name(address, at));
                let end = first_wanted(from, at, ends_name(address, at));
                let kept = address.take(end) + address.skip(at);
                assert(forall|i: int| 0 <= i < end ==> kept[i] == address[i]);
                assert(forall|i: int| end <= i < kept.len() ==> kept[i] == address[i - end + at]);
                assert forall|i: int| 0 <= i < scheme_end implies !#[trigger] ends_scheme(kept)(
                    i,
                ) by {
                    assert(!ends_scheme(address)(i));
                    assert(kept.subrange(i, i + 3) == address.subrange(i, i + 3));
                }
                assert(kept.subrange(scheme_end, from) == address.subrange(scheme_end, from));
                assert(ends_scheme(kept)(scheme_end));
                lemma_is_first_wanted(0, kept.len() as int, ends_scheme(kept), scheme_end);
                let kept_to = end + to - at;
                assert forall|i: int| from <= i < kept_to implies !#[trigger] ends_host(kept)(
                    i,
                ) by {
                    if i < end {
                        assert(!ends_host(address)(i));
                    } else {
                        assert(!ends_host(address)(i - end + at));
                    }
                }
                assert(kept_to < kept.len() ==> ends_host(kept)(kept_to));
                lemma_is_first_wanted(from, kept.len() as int, ends_host(kept), kept_to);
                assert forall|i: int| end < i < kept_to implies !#[trigger] ends_user(kept)(i) by {
                    assert(!ends_user(address)(i - end + at));
                }
                lemma_is_last_wanted(from, kept_to, ends_user(kept), end);
                assert forall|i: int| from <= i < end implies !#[trigger] ends_name(kept, end)(
                    i,
                ) by {
                    assert(!ends_name(address, at)(i));
                }
                lemma_is_first_wanted(from, end, ends_name(kept, end), end);
                assert(kept.take(end) + kept.skip(end) == kept);
            },
        }
    }
}

/// Whether a password behind a user name begins here: with a colon or a semicolon, as they are or
/// escaped.
pub open spec fn begins_secret(secret: Seq<char>) -> bool {
    ||| secret.len() >= 1 && (secret[0] == ':' || secret[0] == ';')
    ||| secret.len() >= 3 && secret[0] == '%' && secret[1] == '3' && (secret[2] == 'A' || secret[2]
        == 'a' || secret[2] == 'B' || secret[2] == 'b')
}

/// Whether a text has none of the characters that end the host of an address.
pub open spec fn stays_in_host(text: Seq<char>) -> bool {
    !text.contains('/') && !text.contains('?') && !text.contains('#')
}

/// What stands between a user name and the host of an address is left out, whatever it is and however
/// it is separated from the name; the scheme, the name, the host and all that follows stay as they
/// are.
#[verifier::rlimit(40)]
#[verifier::spinoff_prover]
pub proof fn law_secret_is_left_out(
    scheme: Seq<char>,
    name: Seq<char>,
    secret: Seq<char>,
    host: Seq<char>,
    rest: Seq<char>,
)
    requires
        !scheme.contains('/'),
        stays_in_host(name) && stays_in_host(secret) && stays_in_host(host),
        !name.contains(':') && !name.contains(';') && !name.contains('@'),
        forall|i: int|
            0 <= i < name.len() - 2 && #[trigger] name[i] == '%' ==> !begins_secret(name.skip(i)),
        secret.len() == 0 || begins_secret(secret),
        !host.contains('@'),
        rest.len() == 0 || rest[0] == '/' || rest[0] == '?' || rest[0] == '#',
    ensures
        without_secret(
            scheme + "://"@ + name + secret + seq!['@'] + host + rest,
        ) == scheme + "://"@ + name + seq!['@'] + host + rest,
{
    reveal_strlit("://");
    let front = scheme + "://"@ + name;
    let address = front + secret + seq!['@'] + host + rest;
    let name_end = front.len() as int;
    let at = name_end + secret.len();
    lemma_scheme_end(scheme, name + secret + seq!['@'] + host + rest);
    assert(address =~= scheme + "://"@ + (name + secret + seq!['@'] + host + rest));
    let from = scheme.len() as int + 3;
    let to = at + 1 + host.len();
    assert forall|i: int| from <= i < to implies !#[trigger] ends_host(address)(i) by {
        if i < name_end {
            assert(address[i] == name[i - from]);
        } else if i < at {
            assert(address[i] == secret[i - name_end]);
        } else if i > at {
            assert(address[i] == host[i - at - 1]);
        }
    }
    assert(to < address.len() ==> address[to] == rest[0]);
    lemma_is_first_wanted(from, address.len() as int, ends_host(address), to);
    assert(address[at] == '@');
    assert forall|i: int| at < i < to implies !#[trigger] ends_user(address)(i) by {
        assert(address[i] == host[i - at - 1]);
    }
    lemma_is_last_wanted(from, to, ends_user(address), at);
    assert forall|i: int| from <= i < name_end implies !#[trigger] ends_name(address, at)(
        i,
    ) by {
        assert(address[i] == name[i - from]);
        if i + 2 < name_end {
            assert(address[i + 1] == name[i + 1 - from]);
            assert(address[i + 2] == name[i + 2 - from]);
            let tail = name.skip(i - from);
            assert(tail[0] == address[i] && tail[1] == address[i + 1] && tail[2] == address[i + 2]);
        } else if i + 2 == name_end && i + 2 < at {
            assert(address[i + 2] == secret[0]);
        } else if i + 1 == name_end && i + 2 < at {
            assert(address[i + 1] == secret[0]);
        }
    }
    if secret.len() > 0 {
        assert(address[name_end] == secret[0]);
        if secret.len() >= 3 {
            assert(address[name_end + 1] == secret[1]);
            assert(address[name_end + 2] == secret[2]);
        }
        assert(ends_name(address, at)(name_end));
    }
    lemma_is_first_wanted(
        from,
        at,
        ends_name(address, at),
        name_end,
    );
    assert(address.take(name_end) =~= front);
    assert(address.skip(at) =~= seq!['@'] + host + rest);
    assert(front + (seq!['@'] + host + rest) =~= front + seq!['@'] + host + rest);
}

proof fn lemma_scheme_end(scheme: Seq<char>, tail: Seq<char>)
    requires
        !scheme.contains('/'),
    ensures
        first_wanted(
            0,
            (scheme + "://"@ + tail).len() as int,
            ends_scheme(scheme + "://"@ + tail),
        ) == scheme.len(),
{
    reveal_strlit("://");
    let address = scheme + "://"@ + tail;
    let end = scheme.len() as int;
    assert forall|i: int| 0 <= i < end implies !#[trigger] ends_scheme(address)(i) by {
        if occurs_at(address, "://"@, i) {
            assert(address.subrange(i, i + 3)[1] == '/');
            if i + 1 < end {
                assert(address[i + 1] == scheme[i + 1]);
            } else {
                assert(address[i + 1] == ':');
            }
        }
    }
    assert(address.subrange(end, end + 3) =~= "://"@);
    assert(ends_scheme(address)(end));
    lemma_is_first_wanted(0, address.len() as int, ends_scheme(address), end);
}

/// An address without a user stays as it is, whatever follows its host.
pub proof fn law_addresses_without_a_user_stay(scheme: Seq<char>, host: Seq<char>, rest: Seq<char>)
    requires
        !scheme.contains('/'),
        stays_in_host(host),
        !host.contains('@'),
        rest.len() == 0 || rest[0] == '/' || rest[0] == '?' || rest[0] == '#',
    ensures
        without_secret(scheme + "://"@ + host + rest) == scheme + "://"@ + host + rest,
{
    reveal_strlit("://");
    let from = scheme.len() as int + 3;
    let plain = scheme + "://"@ + host + rest;
    lemma_scheme_end(scheme, host + rest);
    assert(plain =~= scheme + "://"@ + (host + rest));
    let plain_to = from + host.len();
    assert forall|i: int| from <= i < plain_to implies !#[trigger] ends_host(plain)(i) by {
        assert(plain[i] == host[i - from]);
    }
    assert(plain_to < plain.len() ==> plain[plain_to] == rest[0]);
    lemma_is_first_wanted(from, plain.len() as int, ends_host(plain), plain_to);
    lemma_last_wanted(from, plain_to, ends_user(plain));
    assert forall|i: int| from <= i < plain_to implies !#[trigger] ends_user(plain)(i) by {
        assert(plain[i] == host[i - from]);
    }
}

/// A text that names no scheme holds no secret, and stays as it is.
pub proof fn law_texts_without_a_scheme_stay(address: Seq<char>)
    requires
        !address.contains(':'),
    ensures
        without_secret(address) == address,
{
    reveal_strlit("://");
    assert forall|i: int| 0 <= i < address.len() implies !#[trigger] ends_scheme(address)(i) by {
        if occurs_at(address, "://"@, i) {
            assert(address.subrange(i, i + 3)[0] == ':');
            assert(address[i] == ':');
        }
    }
    lemma_is_first_wanted(0, address.len() as int, ends_scheme(address), address.len() as int);
}

} // verus!
