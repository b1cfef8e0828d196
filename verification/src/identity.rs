//! The identity that an account has registered, read from the bytes that the
//! chain's storage holds for it.
use crate::scale::{
    compact_size, compact_value, read_bytes, read_compact_u32, read_u8, rest,
};
use crate::text::string_from_utf8;
use crate::validator::IdentityRegistration;
use vstd::prelude::*;
use vstd::utf8::{decode_utf8, valid_utf8};

verus! {

/// Mathematical model of an [`IdentityRegistration`].
pub struct IdentityView {
    pub display: Option<Seq<char>>,
    pub legal: Option<Seq<char>>,
    pub web: Option<Seq<char>>,
    pub email: Option<Seq<char>>,
    pub twitter: Option<Seq<char>>,
    pub confirmed: bool,
}

/// The text of an optional string.
pub open spec fn optional_text(text: Option<String>) -> Option<Seq<char>> {
    match text {
        Some(text) => Some(text@),
        None => None,
    }
}

impl View for IdentityRegistration {
    type V = IdentityView;

    open spec fn view(&self) -> IdentityView {
        IdentityView {
            display: optional_text(self.display),
            legal: optional_text(self.legal),
            web: optional_text(self.web),
            email: optional_text(self.email),
            twitter: optional_text(self.twitter),
            confirmed: self.confirmed,
        }
    }
}

/// A field of an identity at `pos`, and where it ends. The first byte tells what
/// follows: nothing for 0; for 1 to 33, one byte fewer than the number, which are
/// the text of the field where they are valid UTF-8; for 34 to 37, the 32 bytes
/// of a hash, which is no text.
pub open spec fn field_at(bytes: Seq<u8>, pos: int) -> Option<(Option<Seq<char>>, int)> {
    if pos < 0 || pos >= bytes.len() {
        None
    } else if bytes[pos] == 0 {
        Some((None, pos + 1))
    } else if bytes[pos] <= 33 {
        let end = pos + bytes[pos] as int;
        if end <= bytes.len() {
            if valid_utf8(bytes.subrange(pos + 1, end)) {
                Some((Some(decode_utf8(bytes.subrange(pos + 1, end))), end))
            } else {
                Some((None, end))
            }
        } else {
            None
        }
    } else if bytes[pos] <= 37 {
        if pos + 33 <= bytes.len() {
            Some((None, pos + 33))
        } else {
            None
        }
    } else {
        None
    }
}

/// A result that also counts as confirmed if `before` does.
pub open spec fn or_confirmed(before: bool, result: Option<(bool, int)>) -> Option<(bool, int)> {
    match result {
        Some((confirmed, end)) => Some((before || confirmed, end)),
        None => None,
    }
}

/// The `count` judgements from `pos` on: whether one of them holds the identity
/// to be reasonable or known to be good, and where they end. A judgement is the
/// index of a registrar in four bytes and one byte for what it holds; the one
/// that says a fee was paid is followed by the fee in sixteen bytes.
pub open spec fn judgements_at(bytes: Seq<u8>, pos: int, count: nat) -> Option<(bool, int)>
    decreases count,
{
    if count == 0 {
        Some((false, pos))
    } else if pos < 0 || pos + 5 > bytes.len() || bytes[pos + 4] > 6 {
        None
    } else {
        let kind = bytes[pos + 4];
        let next = if kind == 1 {
            pos + 21
        } else {
            pos + 5
        };
        if next > bytes.len() {
            None
        } else {
            or_confirmed(kind == 2 || kind == 3, judgements_at(bytes, next, (count - 1) as nat))
        }
    }
}

/// Where `count` pairs of fields from `pos` on end.
pub open spec fn pairs_end(bytes: Seq<u8>, pos: int, count: nat) -> Option<int>
    decreases count,
{
    if count == 0 {
        Some(pos)
    } else {
        match field_at(bytes, pos) {
            None => None,
            Some((_, after_name)) => match field_at(bytes, after_name) {
                None => None,
                Some((_, next)) => pairs_end(bytes, next, (count - 1) as nat),
            },
        }
    }
}

/// The number, compact, at `pos`, and where it ends.
pub open spec fn count_at(bytes: Seq<u8>, pos: int) -> Option<(nat, int)> {
    if 0 <= pos < bytes.len() && compact_value(rest(bytes, pos), 4) is Some {
        Some((compact_value(rest(bytes, pos), 4)->Some_0, pos + compact_size(rest(bytes, pos))))
    } else {
        None
    }
}

/// The identity that the bytes hold: the judgements with their number in front;
/// the deposit in sixteen bytes; further pairs of fields with their number in
/// front; the fields for display, legal name, web, riot and e-mail; one byte, 0 or
/// 1, and after a 1 the twenty bytes of a fingerprint; the fields for image and
/// twitter.
pub open spec fn identity_of(bytes: Seq<u8>) -> Option<IdentityView> {
    match count_at(bytes, 0) {
        None => None,
        Some((judgement_count, start)) => match judgements_at(bytes, start, judgement_count) {
            None => None,
            Some((confirmed, after_judgements)) => match count_at(bytes, after_judgements + 16) {
                None => None,
                Some((pair_count, pairs_start)) => match pairs_end(bytes, pairs_start, pair_count) {
                    None => None,
                    Some(at_display) => match field_at(bytes, at_display) {
                        None => None,
                        Some((display, at_legal)) => match field_at(bytes, at_legal) {
                            None => None,
                            Some((legal, at_web)) => match field_at(bytes, at_web) {
                                None => None,
                                Some((web, at_riot)) => match field_at(bytes, at_riot) {
                                    None => None,
                                    Some((_, at_email)) => match field_at(bytes, at_email) {
                                        None => None,
                                        Some((email, at_fingerprint)) => after_fingerprint(
                                            bytes,
                                            at_fingerprint,
                                            IdentityView {
                                                display,
                                                legal,
                                                web,
                                                email,
                                                twitter: None,
                                                confirmed,
                                            },
                                        ),
                                    },
                                },
                            },
                        },
                    },
                },
            },
        },
    }
}

/// The rest of an identity from its fingerprint on.
pub open spec fn after_fingerprint(bytes: Seq<u8>, pos: int, so_far: IdentityView) -> Option<IdentityView> {
    if pos < 0 || pos >= bytes.len() || bytes[pos] > 1 {
        None
    } else {
        let at_image = if bytes[pos] == 1 {
            pos + 21
        } else {
            pos + 1
        };
        match field_at(bytes, at_image) {
            None => None,
            Some((_, at_twitter)) => match field_at(bytes, at_twitter) {
                None => None,
                Some((twitter, _)) => Some(IdentityView { twitter, ..so_far }),
            },
        }
    }
}

/// Reads the field at `pos`.
fn read_field(bytes: &[u8], pos: usize) -> (read: Option<(Option<String>, usize)>)
    ensures
        match read {
            Some((text, next)) => field_at(bytes@, pos as int) == Some(
                (optional_text(text), next as int),
            ) && next <= bytes@.len(),
            None => field_at(bytes@, pos as int) is None,
        },
{
    let kind = match read_u8(bytes, pos) {
        Some((kind, _)) => kind,
        None => {
            return None;
        },
    };
    if kind == 0 {
        Some((None, pos + 1))
    } else if kind <= 33 {
        match read_bytes(bytes, pos + 1, (kind - 1) as usize) {
            Some((raw, next)) => Some((string_from_utf8(raw), next)),
            None => None,
        }
    } else if kind <= 37 {
        if bytes.len() - pos >= 33 {
            Some((None, pos + 33))
        } else {
            None
        }
    } else {
        None
    }
}

/// Reads the number at `pos`.
fn read_count(bytes: &[u8], pos: usize) -> (read: Option<(u32, usize)>)
    ensures
        match read {
            Some((count, next)) => count_at(bytes@, pos as int) == Some(
                (count as nat, next as int),
            ) && next <= bytes@.len(),
            None => count_at(bytes@, pos as int) is None,
        },
{
    read_compact_u32(bytes, pos)
}

/// Reads `count` judgements from `pos` on.
fn read_judgements(bytes: &[u8], pos: usize, count: u32) -> (read: Option<(bool, usize)>)
    requires
        pos <= bytes@.len(),
    ensures
        match read {
            Some((confirmed, next)) => judgements_at(bytes@, pos as int, count as nat) == Some(
                (confirmed, next as int),
            ) && next <= bytes@.len(),
            None => judgements_at(bytes@, pos as int, count as nat) is None,
        },
{
    let n = bytes.len();
    let mut confirmed = false;
    let mut at: usize = pos;
    let mut k: u32 = 0;
    let ghost whole = judgements_at(bytes@, pos as int, count as nat);
    while k < count
        invariant
            k <= count,
            at <= n,
            n == bytes@.len(),
            whole == judgements_at(bytes@, pos as int, count as nat),
            whole == or_confirmed(
                confirmed,
                judgements_at(bytes@, at as int, (count - k) as nat),
            ),
        decreases count - k,
    {
        if n - at < 5 || bytes[at + 4] > 6 {
            return None;
        }
        let kind = bytes[at + 4];
        let next = if kind == 1 {
            if n - at < 21 {
                return None;
            }
            at + 21
        } else {
            at + 5
        };
        confirmed = confirmed || kind == 2 || kind == 3;
        at = next;
        k += 1;
    }
    Some((confirmed, at))
}

/// Passes over `count` pairs of fields from `pos` on.
fn skip_pairs(bytes: &[u8], pos: usize, count: u32) -> (end: Option<usize>)
    requires
        pos <= bytes@.len(),
    ensures
        match end {
            Some(next) => pairs_end(bytes@, pos as int, count as nat) == Some(next as int) && next
                <= bytes@.len(),
            None => pairs_end(bytes@, pos as int, count as nat) is None,
        },
{
    let mut at: usize = pos;
    let mut k: u32 = 0;
    while k < count
        invariant
            k <= count,
            at <= bytes@.len(),
            pairs_end(bytes@, pos as int, count as nat) == pairs_end(
                bytes@,
                at as int,
                (count - k) as nat,
            ),
        decreases count - k,
    {
        let after_name = match read_field(bytes, at) {
            Some((_, next)) => next,
            None => {
                return None;
            },
        };
        at = match read_field(bytes, after_name) {
            Some((_, next)) => next,
            None => {
                return None;
            },
        };
        k += 1;
    }
    Some(at)
}

impl IdentityRegistration {
    /// Reads the identity that an account has registered.
    pub fn from_bytes(bytes: &[u8]) -> (identity: Option<IdentityRegistration>)
        ensures
            match identity {
                Some(read) => identity_of(bytes@) == Some(read@),
                None => identity_of(bytes@) is None,
            },
    {
        let n = bytes.len();
        let (judgement_count, start) = match read_count(bytes, 0) {
            Some(read) => read,
            None => {
                return None;
            },
        };
        let (confirmed, after_judgements) = match read_judgements(bytes, start, judgement_count) {
            Some(read) => read,
            None => {
                return None;
            },
        };
        if n - after_judgements < 16 {
            return None;
        }
        let (pair_count, pairs_start) = match read_count(bytes, after_judgements + 16) {
            Some(read) => read,
            None => {
                return None;
            },
        };
        let at_display = match skip_pairs(bytes, pairs_start, pair_count) {
            Some(next) => next,
            None => {
                return None;
            },
        };
        let (display, at_legal) = match read_field(bytes, at_display) {
            Some(read) => read,
            None => {
                return None;
            },
        };
        let (legal, at_web) = match read_field(bytes, at_legal) {
            Some(read) => read,
            None => {
                return None;
            },
        };
        let (web, at_riot) = match read_field(bytes, at_web) {
            Some(read) => read,
            None => {
                return None;
            },
        };
        let at_email = match read_field(bytes, at_riot) {
            Some((_, next)) => next,
            None => {
                return None;
            },
        };
        let (email, at_fingerprint) = match read_field(bytes, at_email) {
            Some(read) => read,
            None => {
                return None;
            },
        };
        let flag = match read_u8(bytes, at_fingerprint) {
            Some((flag, _)) => flag,
            None => {
                return None;
            },
        };
        if flag > 1 {
            return None;
        }
        let at_image = if flag == 1 {
            if n - at_fingerprint < 21 {
                proof {
                    assert(field_at(bytes@, at_fingerprint + 21) is None);
                }
                return None;
            }
            at_fingerprint + 21
        } else {
            at_fingerprint + 1
        };
        let at_twitter = match read_field(bytes, at_image) {
            Some((_, next)) => next,
            None => {
                return None;
            },
        };
        let twitter = match read_field(bytes, at_twitter) {
            Some((twitter, _)) => twitter,
            None => {
                return None;
            },
        };
        Some(IdentityRegistration { display, legal, web, email, twitter, confirmed })
    }
}

} // verus!
