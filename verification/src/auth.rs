//! Access to the runtime service: the API keys it accepts and which requests pass.
use vstd::prelude::*;
use crate::text::{
    chars_of, has_prefix, split_bounds, split_on, split_on_joined, split_without_separator,
    starts_with, str_equal, string_from_chars, trim, trim_bounds,
};

verus! {

/// The keys named in `pieces`, each trimmed, the empty ones left out.
pub open spec fn keys_of(pieces: Seq<Seq<char>>) -> Seq<Seq<char>>
    decreases pieces.len(),
{
    if pieces.len() == 0 {
        Seq::empty()
    } else {
        let k = trim(pieces.last());
        keys_of(pieces.drop_last()) + if k.len() > 0 {
            seq![k]
        } else {
            Seq::empty()
        }
    }
}

/// The keys in the value of `API_KEYS`: the comma-separated pieces, trimmed, without the
/// empty ones.
pub open spec fn api_keys_spec(s: Seq<char>) -> Seq<Seq<char>> {
    keys_of(split_on(s, ','))
}

pub fn parse_api_keys(s: &str) -> (keys: Vec<String>)
    ensures
        keys@.map_values(|k: String| k@) == api_keys_spec(s@),
        forall|i: int| 0 <= i < split_on(s@, ',').len() && trim(#[trigger] split_on(s@, ',')[i]).len() > 0
            ==> keys@.map_values(|k: String| k@).contains(trim(split_on(s@, ',')[i])),
{
    let v = chars_of(s);
    let bounds = split_bounds(&v, ',');
    let ghost pieces = split_on(v@, ',');
    let ghost f = |r: (usize, usize)| v@.subrange(r.0 as int, r.1 as int);
    let mut keys: Vec<String> = Vec::new();
    let mut i: usize = 0;
    while i < bounds.len()
        invariant
            i <= bounds@.len(),
            pieces == bounds@.map_values(f),
            f == (|r: (usize, usize)| v@.subrange(r.0 as int, r.1 as int)),
            forall|k: int| #![trigger bounds@[k]] 0 <= k < bounds@.len() ==> bounds@[k].0 <= bounds@[k].1 <= v@.len(),
            keys@.map_values(|k: String| k@) == keys_of(pieces.take(i as int)),
        decreases bounds@.len() - i,
    {
        let (a, b) = bounds[i];
        let (lo, hi) = trim_bounds(&v, a, b);
        assert(pieces.take(i + 1).drop_last() == pieces.take(i as int));
        assert(pieces.take(i + 1).last() == v@.subrange(a as int, b as int));
        if lo < hi {
            let ghost before = keys@;
            let k = string_from_chars(&v, lo, hi);
            let ghost kv = k@;
            keys.push(k);
            assert(keys@.map_values(|k: String| k@) =~= before.map_values(|k: String| k@).push(kv));
        } else {
            assert(keys_of(pieces.take(i + 1)) =~= keys_of(pieces.take(i as int)));
        }
        i = i + 1;
    }
    assert(pieces.take(bounds@.len() as int) == pieces);
    proof {
        every_nonblank_piece_is_a_key(s@);
    }
    keys
}

/// The keys named in `pieces` are exactly their non-empty trimmed forms: each piece whose
/// trim is not empty gives a key, and each key is the non-empty trim of some piece.
proof fn keys_of_pieces(pieces: Seq<Seq<char>>)
    ensures
        forall|i: int| 0 <= i < pieces.len() && trim(#[trigger] pieces[i]).len() > 0
            ==> keys_of(pieces).contains(trim(pieces[i])),
        forall|j: int| 0 <= j < keys_of(pieces).len() ==> (#[trigger] keys_of(pieces)[j]).len() > 0
            && exists|i: int| 0 <= i < pieces.len() && keys_of(pieces)[j] == trim(#[trigger] pieces[i]),
    decreases pieces.len(),
{
    if pieces.len() > 0 {
        let rest = pieces.drop_last();
        keys_of_pieces(rest);
        let k = trim(pieces.last());
        let ks = keys_of(pieces);
        let kr = keys_of(rest);
        assert(ks == kr + if k.len() > 0 { seq![k] } else { Seq::<Seq<char>>::empty() });
        assert forall|i: int| 0 <= i < pieces.len() && trim(#[trigger] pieces[i]).len() > 0
            implies ks.contains(trim(pieces[i])) by {
            if i < pieces.len() - 1 {
                assert(rest[i] == pieces[i]);
                assert(kr.contains(trim(rest[i])));
                let j = choose|j: int| 0 <= j < kr.len() && kr[j] == trim(rest[i]);
                assert(ks[j] == kr[j]);
            } else {
                assert(ks[kr.len() as int] == k);
            }
        }
        assert forall|j: int| 0 <= j < ks.len() implies (#[trigger] ks[j]).len() > 0
            && exists|i: int| 0 <= i < pieces.len() && ks[j] == trim(#[trigger] pieces[i]) by {
            if j < kr.len() {
                assert(ks[j] == kr[j]);
                let i = choose|i: int| 0 <= i < rest.len() && kr[j] == trim(#[trigger] rest[i]);
                assert(pieces[i] == rest[i]);
            } else {
                assert(ks[j] == k);
                assert(pieces[pieces.len() - 1] == pieces.last());
            }
        }
    }
}

/// Every comma-separated piece of `API_KEYS` whose trim is not empty is a key, the piece
/// after the last comma too; and every key is such a piece, trimmed.
pub proof fn every_nonblank_piece_is_a_key(s: Seq<char>)
    ensures
        forall|i: int| 0 <= i < split_on(s, ',').len() && trim(#[trigger] split_on(s, ',')[i]).len() > 0
            ==> api_keys_spec(s).contains(trim(split_on(s, ',')[i])),
        forall|j: int| 0 <= j < api_keys_spec(s).len() ==> (#[trigger] api_keys_spec(s)[j]).len() > 0
            && exists|i: int| 0 <= i < split_on(s, ',').len() && api_keys_spec(s)[j] == trim(#[trigger] split_on(s, ',')[i]),
{
    keys_of_pieces(split_on(s, ','));
}

/// The keys of two runs of pieces are the keys of the first followed by those of the second.
proof fn keys_of_concat(p: Seq<Seq<char>>, q: Seq<Seq<char>>)
    ensures
        keys_of(p + q) == keys_of(p) + keys_of(q),
    decreases q.len(),
{
    if q.len() == 0 {
        assert(p + q == p);
    } else {
        keys_of_concat(p, q.drop_last());
        assert((p + q).drop_last() == p + q.drop_last());
        assert((p + q).last() == q.last());
    }
}

/// The keys of a value joined with a comma are the keys of the part before it followed by
/// the keys of the part after it.
pub proof fn api_keys_of_joined(a: Seq<char>, b: Seq<char>)
    ensures
        api_keys_spec(a + seq![','] + b) == api_keys_spec(a) + api_keys_spec(b),
{
    split_on_joined(a, b, ',');
    keys_of_concat(split_on(a, ','), split_on(b, ','));
}

/// A value without a comma names one key, itself trimmed, unless it is blank.
pub proof fn api_keys_of_single(s: Seq<char>)
    requires
        !s.contains(','),
    ensures
        api_keys_spec(s) == if trim(s).len() > 0 { seq![trim(s)] } else { Seq::<Seq<char>>::empty() },
{
    split_without_separator(s, ',');
    let pieces = seq![s];
    assert(pieces.drop_last() == Seq::<Seq<char>>::empty());
    assert(pieces.last() == s);
    assert(keys_of(Seq::<Seq<char>>::empty()) == Seq::<Seq<char>>::empty());
    assert(keys_of(pieces) == keys_of(pieces.drop_last()) + if trim(s).len() > 0 {
        seq![trim(s)]
    } else {
        Seq::<Seq<char>>::empty()
    });
}

/// Whether a request passes: status reads always do; others need the key list and an
/// `Authorization` header `Bearer <key>` whose key, trimmed, is in it.
pub open spec fn authorized_spec(path: Seq<char>, header: Option<Seq<char>>, keys: Option<Seq<Seq<char>>>) -> bool {
    if has_prefix(path, "/status"@) {
        true
    } else {
        match (keys, header) {
            (Some(ks), Some(h)) => has_prefix(h, "Bearer "@) && ks.contains(trim(h.skip(7))),
            _ => false,
        }
    }
}

#[verifier::loop_isolation(false)]
pub fn authorize(path: &str, header: Option<&str>, keys: Option<&Vec<String>>) -> (ok: bool)
    ensures
        ok == authorized_spec(
            path@,
            match header { Some(h) => Some(h@), None => None },
            match keys { Some(ks) => Some(ks@.map_values(|k: String| k@)), None => None },
        ),
{
    if starts_with(path, "/status") {
        return true;
    }
    let ks = match keys {
        Some(ks) => ks,
        None => return false,
    };
    let h = match header {
        Some(h) => h,
        None => return false,
    };
    if !starts_with(h, "Bearer ") {
        return false;
    }
    proof {
        reveal_strlit("Bearer ");
    }
    let hv = chars_of(h);
    let (lo, hi) = trim_bounds(&hv, 7, hv.len());
    assert(hv@.subrange(7, hv@.len() as int) == h@.skip(7));
    let token = string_from_chars(&hv, lo, hi);
    let ghost names = ks@.map_values(|k: String| k@);
    let mut i: usize = 0;
    while i < ks.len()
        invariant
            i <= ks@.len(),
            names == ks@.map_values(|k: String| k@),
            token@ == trim(h@.skip(7)),
            forall|j: int| 0 <= j < i ==> names[j] != token@,
        decreases ks@.len() - i,
    {
        if str_equal(ks[i].as_str(), token.as_str()) {
            assert(names[i as int] == token@);
            assert(names.contains(token@));
            return true;
        }
        i = i + 1;
    }
    assert(!names.contains(token@));
    false
}

/// Status reads pass whatever the key list and the header hold; any other request fails
/// when no key list is configured or no header is sent.
pub proof fn status_open_others_need_key(path: Seq<char>, header: Option<Seq<char>>, keys: Option<Seq<Seq<char>>>)
    ensures
        has_prefix(path, "/status"@) ==> authorized_spec(path, header, keys),
        !has_prefix(path, "/status"@) && (keys is None || header is None) ==> !authorized_spec(path, header, keys),
{
}

/// A request with a listed key passes, whatever whitespace surrounds the key in the header.
pub proof fn listed_key_passes(path: Seq<char>, key: Seq<char>, padded: Seq<char>, keys: Seq<Seq<char>>)
    requires
        keys.contains(key),
        trim(padded) == key,
    ensures
        authorized_spec(path, Some("Bearer "@ + padded), Some(keys)),
{
    reveal_strlit("Bearer ");
    let h = "Bearer "@ + padded;
    assert(h.subrange(0, 7) == "Bearer "@);
    assert(h.skip(7) == padded);
}

} // verus!
