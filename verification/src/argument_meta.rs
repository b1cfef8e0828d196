//! Argument-type grammar of the runtime metadata: `Vec<T>`, `Option<T>`,
//! parenthesised tuples and primitive names.
use crate::text::{
    lemma_trim_ignores_leading_blank, trim_str, is_trimmed, lemma_trim_bounds,
    lemma_trim_of_trimmed, trim, trim_start_index,
};
use vstd::prelude::*;
use vstd::string::*;

verus! {

/// Failure to turn node-supplied metadata into the crate's own descriptors.
#[derive(Debug)]
pub enum ConversionError {
    InvalidPrefix,
    InvalidVersion,
    ExpectedDecoded,
    InvalidEventArg(String, &'static str),
}

/// Shape of a call or event argument as the runtime metadata names it.
#[derive(Debug, PartialEq, Eq, Hash)]
pub enum ArgumentMeta {
    Primitive(String),
    Vec(Box<ArgumentMeta>),
    Tuple(Vec<ArgumentMeta>),
    Option(Box<ArgumentMeta>),
}

/// Mathematical model of an [`ArgumentMeta`].
pub enum ArgumentMetaView {
    Primitive(Seq<char>),
    Vec(Box<ArgumentMetaView>),
    Tuple(Seq<ArgumentMetaView>),
    Option(Box<ArgumentMetaView>),
}

impl View for ArgumentMeta {
    type V = ArgumentMetaView;

    open spec fn view(&self) -> ArgumentMetaView
        decreases self,
    {
        match self {
            ArgumentMeta::Primitive(name) => ArgumentMetaView::Primitive(name@),
            ArgumentMeta::Vec(inner) => ArgumentMetaView::Vec(Box::new((**inner)@)),
            ArgumentMeta::Tuple(items) => ArgumentMetaView::Tuple(
                Seq::new(
                    items@.len(),
                    |i: int|
                        if 0 <= i < items@.len() {
                            items@[i]@
                        } else {
                            ArgumentMetaView::Primitive(Seq::empty())
                        },
                ),
            ),
            ArgumentMeta::Option(inner) => ArgumentMetaView::Option(Box::new((**inner)@)),
        }
    }
}

/// Models of a list of argument shapes, element by element.
pub open spec fn views_of(items: Seq<ArgumentMeta>) -> Seq<ArgumentMetaView> {
    Seq::new(items.len(), |i: int| items[i]@)
}

/// The closing delimiter that a rejected text lacks.
pub enum MissingClose {
    OfVec,
    OfOption,
    OfTuple,
}

/// Why and where parsing stopped.
pub struct Rejection {
    pub text: Seq<char>,
    pub missing: MissingClose,
}

/// Message that goes with a rejection.
pub open spec fn reason(missing: MissingClose) -> Seq<char> {
    match missing {
        MissingClose::OfVec => "Expected closing `>` for `Vec`"@,
        MissingClose::OfOption => "Expected closing `>` for `Option`"@,
        MissingClose::OfTuple => "Expecting closing `)` for tuple"@,
    }
}

pub open spec fn vec_prefix() -> Seq<char> {
    seq!['V', 'e', 'c', '<']
}

pub open spec fn option_prefix() -> Seq<char> {
    seq!['O', 'p', 't', 'i', 'o', 'n', '<']
}

pub open spec fn separator() -> Seq<char> {
    seq![',', ' ']
}

/// Whether `s` begins with `prefix`.
pub open spec fn has_prefix(s: Seq<char>, prefix: Seq<char>) -> bool {
    prefix.len() <= s.len() && s.subrange(0, prefix.len() as int) == prefix
}

/// Index of the first comma of `s` at or after `from`, or the length of `s`.
pub open spec fn comma_from(s: Seq<char>, from: int) -> int
    decreases s.len() - from,
{
    if from < 0 || from >= s.len() {
        s.len() as int
    } else if s[from] == ',' {
        from
    } else {
        comma_from(s, from + 1)
    }
}

/// Whether `s` holds no comma.
pub open spec fn comma_free(s: Seq<char>) -> bool {
    forall|i: int| 0 <= i < s.len() ==> s[i] != ','
}

/// The grammar: what a text denotes, or why it is rejected.
///
/// A text that begins with `Vec<` or `Option<` must end with `>`, one that
/// begins with `(` must end with `)`; anything else is a primitive name.
pub open spec fn parse_text(s: Seq<char>) -> Result<ArgumentMetaView, Rejection>
    decreases s.len(), 0nat,
{
    if has_prefix(s, vec_prefix()) {
        if s.len() >= 5 && s[s.len() - 1] == '>' {
            match parse_text(s.subrange(4, s.len() - 1)) {
                Ok(inner) => Ok(ArgumentMetaView::Vec(Box::new(inner))),
                Err(rejection) => Err(rejection),
            }
        } else {
            Err(Rejection { text: s, missing: MissingClose::OfVec })
        }
    } else if has_prefix(s, option_prefix()) {
        if s.len() >= 8 && s[s.len() - 1] == '>' {
            match parse_text(s.subrange(7, s.len() - 1)) {
                Ok(inner) => Ok(ArgumentMetaView::Option(Box::new(inner))),
                Err(rejection) => Err(rejection),
            }
        } else {
            Err(Rejection { text: s, missing: MissingClose::OfOption })
        }
    } else if s.len() >= 1 && s[0] == '(' {
        if s.len() >= 2 && s[s.len() - 1] == ')' {
            match parse_items(s.subrange(1, s.len() - 1)) {
                Ok(items) => Ok(ArgumentMetaView::Tuple(items)),
                Err(rejection) => Err(rejection),
            }
        } else {
            Err(Rejection { text: s, missing: MissingClose::OfTuple })
        }
    } else {
        Ok(ArgumentMetaView::Primitive(s))
    }
}

/// The members of a tuple: the pieces between commas, each trimmed and parsed.
pub open spec fn parse_items(inner: Seq<char>) -> Result<Seq<ArgumentMetaView>, Rejection>
    decreases inner.len(), 1nat,
{
    let k = comma_from(inner, 0);
    let piece = trim(inner.subrange(0, k));
    if 0 <= k <= inner.len() && piece.len() <= inner.len() {
        match parse_text(piece) {
            Err(rejection) => Err(rejection),
            Ok(head) => if k >= inner.len() {
                Ok(seq![head])
            } else {
                match parse_items(inner.subrange(k + 1, inner.len() as int)) {
                    Ok(rest) => Ok(seq![head] + rest),
                    Err(rejection) => Err(rejection),
                }
            },
        }
    } else {
        Err(Rejection { text: inner, missing: MissingClose::OfTuple })
    }
}

/// The canonical text of an argument shape.
pub open spec fn text_of(m: ArgumentMetaView) -> Seq<char>
    decreases m,
{
    match m {
        ArgumentMetaView::Primitive(name) => name,
        ArgumentMetaView::Vec(inner) => vec_prefix() + text_of(*inner) + seq!['>'],
        ArgumentMetaView::Option(inner) => option_prefix() + text_of(*inner) + seq!['>'],
        ArgumentMetaView::Tuple(items) => seq!['('] + joined(items, 0) + seq![')'],
    }
}

/// The texts of `items[from..]`, separated by a comma and a blank.
pub open spec fn joined(items: Seq<ArgumentMetaView>, from: int) -> Seq<char>
    decreases items, items.len() - from,
{
    if from < 0 || from >= items.len() {
        Seq::empty()
    } else if from == items.len() - 1 {
        text_of(items[from])
    } else {
        text_of(items[from]) + separator() + joined(items, from + 1)
    }
}

pub proof fn lemma_comma_from_bounds(s: Seq<char>, from: int)
    requires
        0 <= from <= s.len(),
    ensures
        from <= comma_from(s, from) <= s.len(),
        comma_from(s, from) < s.len() ==> s[comma_from(s, from)] == ',',
        forall|i: int| from <= i < comma_from(s, from) ==> s[i] != ',',
    decreases s.len() - from,
{
    if from < s.len() && s[from] != ',' {
        lemma_comma_from_bounds(s, from + 1);
    }
}

} // verus!

verus! {

/// Whether the text `s`, of `n` characters, begins with `prefix`.
fn starts_with(s: &str, n: usize, prefix: &str) -> (yes: bool)
    requires
        n == s@.len(),
    ensures
        yes == has_prefix(s@, prefix@),
{
    let m = prefix.unicode_len();
    if m > n {
        return false;
    }
    let mut i: usize = 0;
    while i < m
        invariant
            m == prefix@.len(),
            n == s@.len(),
            m <= n,
            i <= m,
            forall|j: int| 0 <= j < i ==> s@[j] == prefix@[j],
        decreases m - i,
    {
        if s.get_char(i) != prefix.get_char(i) {
            assert(s@.subrange(0, m as int)[i as int] != prefix@[i as int]);
            return false;
        }
        i += 1;
    }
    assert(s@.subrange(0, m as int) =~= prefix@);
    true
}

/// Index of the first comma of `s`, or its length `n`.
fn find_comma(s: &str, n: usize) -> (k: usize)
    requires
        n == s@.len(),
    ensures
        k == comma_from(s@, 0),
        k <= n,
{
    let mut k: usize = 0;
    while k < n && s.get_char(k) != ','
        invariant
            n == s@.len(),
            k <= n,
            comma_from(s@, 0) == comma_from(s@, k as int),
        decreases n - k,
    {
        k += 1;
    }
    k
}

impl ArgumentMeta {
    /// Reads an argument shape from its text.
    pub fn parse(s: &str) -> (result: Result<ArgumentMeta, ConversionError>)
        ensures
            match parse_text(s@) {
                Ok(model) => result matches Ok(meta) && meta@ == model,
                Err(rejection) => result matches Err(ConversionError::InvalidEventArg(text, why))
                    && text@ == rejection.text && why@ == reason(rejection.missing),
            },
        decreases s@.len(), 0nat,
    {
        proof {
            reveal_strlit("Vec<");
            reveal_strlit("Option<");
            assert("Vec<"@ =~= vec_prefix());
            assert("Option<"@ =~= option_prefix());
        }
        let n = s.unicode_len();
        if starts_with(s, n, "Vec<") {
            if n >= 5 && s.get_char(n - 1) == '>' {
                match ArgumentMeta::parse(s.substring_char(4, n - 1)) {
                    Ok(inner) => Ok(ArgumentMeta::Vec(Box::new(inner))),
                    Err(error) => Err(error),
                }
            } else {
                Err(
                    ConversionError::InvalidEventArg(
                        s.to_owned(),
                        "Expected closing `>` for `Vec`",
                    ),
                )
            }
        } else if starts_with(s, n, "Option<") {
            if n >= 8 && s.get_char(n - 1) == '>' {
                match ArgumentMeta::parse(s.substring_char(7, n - 1)) {
                    Ok(inner) => Ok(ArgumentMeta::Option(Box::new(inner))),
                    Err(error) => Err(error),
                }
            } else {
                Err(
                    ConversionError::InvalidEventArg(
                        s.to_owned(),
                        "Expected closing `>` for `Option`",
                    ),
                )
            }
        } else if n >= 1 && s.get_char(0) == '(' {
            if n >= 2 && s.get_char(n - 1) == ')' {
                match parse_members(s.substring_char(1, n - 1)) {
                    Ok(items) => {
                        let meta = ArgumentMeta::Tuple(items);
                        assert(meta@->Tuple_0 =~= views_of(items@));
                        Ok(meta)
                    },
                    Err(error) => Err(error),
                }
            } else {
                Err(
                    ConversionError::InvalidEventArg(
                        s.to_owned(),
                        "Expecting closing `)` for tuple",
                    ),
                )
            }
        } else {
            Ok(ArgumentMeta::Primitive(s.to_owned()))
        }
    }

    /// The canonical text of this shape.
    pub fn to_string(&self) -> (text: String)
        ensures
            text@ == text_of(self@),
        decreases self,
    {
        let mut text = String::new();
        self.write_to(&mut text);
        assert(text@ =~= text_of(self@));
        text
    }

    /// Appends the canonical text of this shape to `out`.
    fn write_to(&self, out: &mut String)
        ensures
            final(out)@ == old(out)@ + text_of(self@),
        decreases self, 0nat,
    {
        proof {
            reveal_strlit("Vec<");
            reveal_strlit("Option<");
            reveal_strlit(">");
            reveal_strlit("(");
            reveal_strlit(")");
            assert("Vec<"@ =~= vec_prefix());
            assert("Option<"@ =~= option_prefix());
            assert(">"@ =~= seq!['>']);
            assert("("@ =~= seq!['(']);
            assert(")"@ =~= seq![')']);
        }
        match self {
            ArgumentMeta::Primitive(name) => {
                out.append(name.as_str());
            },
            ArgumentMeta::Vec(inner) => {
                out.append("Vec<");
                inner.write_to(out);
                out.append(">");
                assert(out@ =~= old(out)@ + text_of(self@));
            },
            ArgumentMeta::Option(inner) => {
                out.append("Option<");
                inner.write_to(out);
                out.append(">");
                assert(out@ =~= old(out)@ + text_of(self@));
            },
            ArgumentMeta::Tuple(items) => {
                out.append("(");
                write_members(items, 0, out);
                out.append(")");
                assert(self@->Tuple_0 =~= views_of(items@));
                assert(out@ =~= old(out)@ + text_of(self@));
            },
        }
    }

    /// Deep copy.
    pub fn duplicate(&self) -> (copy: ArgumentMeta)
        ensures
            copy@ == self@,
        decreases self,
    {
        match self {
            ArgumentMeta::Primitive(name) => ArgumentMeta::Primitive(name.clone()),
            ArgumentMeta::Vec(inner) => ArgumentMeta::Vec(Box::new(inner.duplicate())),
            ArgumentMeta::Option(inner) => ArgumentMeta::Option(Box::new(inner.duplicate())),
            ArgumentMeta::Tuple(items) => {
                let copies = duplicate_all(items);
                let copy = ArgumentMeta::Tuple(copies);
                assert(copy@->Tuple_0 =~= views_of(copies@));
                assert(self@->Tuple_0 =~= views_of(items@));
                copy
            },
        }
    }
}

/// Appends the texts of `items[from..]`, separated by a comma and a blank.
fn write_members(items: &Vec<ArgumentMeta>, from: usize, out: &mut String)
    requires
        from <= items@.len(),
    ensures
        final(out)@ == old(out)@ + joined(views_of(items@), from as int),
    decreases items, items@.len() - from,
{
    proof {
        reveal_strlit(", ");
        assert(", "@ =~= separator());
    }
    if from >= items.len() {
        assert(out@ =~= old(out)@ + joined(views_of(items@), from as int));
    } else {
        assert(decreases_to!(*items => items[from as int]));
        items[from].write_to(out);
        if from + 1 < items.len() {
            out.append(", ");
            write_members(items, from + 1, out);
        }
        assert(out@ =~= old(out)@ + joined(views_of(items@), from as int));
    }
}

/// Reads the members of a tuple from the text between its parentheses.
fn parse_members(inner: &str) -> (result: Result<Vec<ArgumentMeta>, ConversionError>)
    ensures
        match parse_items(inner@) {
            Ok(models) => result matches Ok(items) && views_of(items@) == models,
            Err(rejection) => result matches Err(ConversionError::InvalidEventArg(text, why))
                && text@ == rejection.text && why@ == reason(rejection.missing),
        },
    decreases inner@.len(), 1nat,
{
    let n = inner.unicode_len();
    let k = find_comma(inner, n);
    let piece = trim_str(inner.substring_char(0, k));
    proof {
        lemma_trim_bounds(inner@.subrange(0, k as int));
    }
    match ArgumentMeta::parse(piece) {
        Err(error) => Err(error),
        Ok(head) => {
            if k >= n {
                let mut items: Vec<ArgumentMeta> = Vec::new();
                items.push(head);
                assert(views_of(items@) =~= seq![head@]);
                Ok(items)
            } else {
                match parse_members(inner.substring_char(k + 1, n)) {
                    Err(error) => Err(error),
                    Ok(rest) => {
                        let mut items: Vec<ArgumentMeta> = Vec::new();
                        items.push(head);
                        let mut rest = rest;
                        let ghost tail = rest@;
                        items.append(&mut rest);
                        assert(views_of(items@) =~= seq![head@] + views_of(tail));
                        Ok(items)
                    },
                }
            }
        },
    }
}

/// Deep copy of a list of argument shapes.
pub fn duplicate_all(items: &Vec<ArgumentMeta>) -> (copies: Vec<ArgumentMeta>)
    ensures
        views_of(copies@) == views_of(items@),
    decreases items,
{
    let mut copies: Vec<ArgumentMeta> = Vec::new();
    let mut i: usize = 0;
    while i < items.len()
        invariant
            i <= items.len(),
            copies@.len() == i,
            forall|j: int| 0 <= j < i ==> copies@[j]@ == items@[j]@,
        decreases items.len() - i,
    {
        assert(decreases_to!(*items => items[i as int]));
        copies.push(items[i].duplicate());
        i += 1;
    }
    assert(views_of(copies@) =~= views_of(items@));
    copies
}

impl Clone for ArgumentMeta {
    fn clone(&self) -> (copy: Self)
        ensures
            copy@ == self@,
    {
        self.duplicate()
    }
}

} // verus!

verus! {

proof fn lemma_comma_from_shift(s: Seq<char>, c: char, from: int)
    requires
        0 <= from <= s.len(),
    ensures
        comma_from(seq![c] + s, from + 1) == comma_from(s, from) + 1,
    decreases s.len() - from,
{
    let t = seq![c] + s;
    if from < s.len() {
        assert(t[from + 1] == s[from]);
        if s[from] != ',' {
            lemma_comma_from_shift(s, c, from + 1);
        }
    }
}

/// A text without a comma has its first comma at its end.
proof fn lemma_comma_from_of_comma_free(s: Seq<char>, from: int)
    requires
        0 <= from <= s.len(),
        comma_free(s),
    ensures
        comma_from(s, from) == s.len(),
    decreases s.len() - from,
{
    if from < s.len() {
        lemma_comma_from_of_comma_free(s, from + 1);
    }
}

/// In `head + "," + tail` with a comma-free `head`, the first comma follows `head`.
proof fn lemma_comma_from_after_head(head: Seq<char>, tail: Seq<char>, from: int)
    requires
        0 <= from <= head.len(),
        comma_free(head),
    ensures
        comma_from(head + seq![','] + tail, from) == head.len(),
    decreases head.len() - from,
{
    let t = head + seq![','] + tail;
    if from < head.len() {
        assert(t[from] == head[from]);
        lemma_comma_from_after_head(head, tail, from + 1);
    } else {
        assert(t[from] == ',');
    }
}

/// A blank in front of the text between a tuple's parentheses changes none of its members.
proof fn lemma_parse_items_ignores_leading_blank(inner: Seq<char>)
    ensures
        parse_items(seq![' '] + inner) == parse_items(inner),
{
    let t = seq![' '] + inner;
    assert(t[0] == ' ');
    lemma_comma_from_shift(inner, ' ', 0);
    lemma_comma_from_bounds(inner, 0);
    let k = comma_from(inner, 0);
    assert(comma_from(t, 0) == k + 1);
    assert(t.subrange(0, k + 1) =~= seq![' '] + inner.subrange(0, k));
    lemma_trim_ignores_leading_blank(inner.subrange(0, k));
    lemma_trim_bounds(inner.subrange(0, k));
    if k < inner.len() {
        assert(t.subrange(k + 2, t.len() as int) =~= inner.subrange(k + 1, inner.len() as int));
    }
}

proof fn lemma_joined_shift(head: ArgumentMetaView, rest: Seq<ArgumentMetaView>, from: int)
    requires
        0 <= from <= rest.len(),
    ensures
        joined(seq![head] + rest, from + 1) == joined(rest, from),
    decreases rest.len() - from,
{
    let all = seq![head] + rest;
    if from < rest.len() {
        assert(all[from + 1] == rest[from]);
        if from < rest.len() - 1 {
            lemma_joined_shift(head, rest, from + 1);
        }
    }
}

/// The canonical text of what a trimmed text denotes is trimmed.
proof fn lemma_text_trimmed(s: Seq<char>)
    requires
        parse_text(s) is Ok,
        is_trimmed(s),
    ensures
        is_trimmed(text_of(parse_text(s)->Ok_0)),
{
    let m = parse_text(s)->Ok_0;
    let t = text_of(m);
    match m {
        ArgumentMetaView::Primitive(name) => {},
        ArgumentMetaView::Vec(inner) => {
            assert(t[0] == 'V');
            assert(t[t.len() - 1] == '>');
        },
        ArgumentMetaView::Option(inner) => {
            assert(t[0] == 'O');
            assert(t[t.len() - 1] == '>');
        },
        ArgumentMetaView::Tuple(items) => {
            assert(t[0] == '(');
            assert(t[t.len() - 1] == ')');
        },
    }
}

/// Wrapping a comma-free text in comma-free delimiters leaves it comma-free.
proof fn lemma_wrapped_comma_free(open: Seq<char>, body: Seq<char>, close: Seq<char>)
    requires
        comma_free(open),
        comma_free(body),
        comma_free(close),
    ensures
        comma_free(open + body + close),
{
    let t = open + body + close;
    assert forall|i: int| 0 <= i < t.len() implies t[i] != ',' by {
        if i < open.len() {
            assert(t[i] == open[i]);
        } else if i < open.len() + body.len() {
            assert(t[i] == body[i - open.len()]);
        } else {
            assert(t[i] == close[i - open.len() - body.len()]);
        }
    }
}

/// The canonical text of what a comma-free text denotes holds no comma.
proof fn lemma_text_comma_free(s: Seq<char>)
    requires
        parse_text(s) is Ok,
        comma_free(s),
    ensures
        comma_free(text_of(parse_text(s)->Ok_0)),
    decreases s.len(), 0nat,
{
    if has_prefix(s, vec_prefix()) {
        let inner = s.subrange(4, s.len() - 1);
        assert forall|i: int| 0 <= i < inner.len() implies inner[i] != ',' by {
            assert(inner[i] == s[i + 4]);
        }
        lemma_text_comma_free(inner);
        lemma_wrapped_comma_free(vec_prefix(), text_of(parse_text(inner)->Ok_0), seq!['>']);
    } else if has_prefix(s, option_prefix()) {
        let inner = s.subrange(7, s.len() - 1);
        assert forall|i: int| 0 <= i < inner.len() implies inner[i] != ',' by {
            assert(inner[i] == s[i + 7]);
        }
        lemma_text_comma_free(inner);
        lemma_wrapped_comma_free(option_prefix(), text_of(parse_text(inner)->Ok_0), seq!['>']);
    } else if s.len() >= 1 && s[0] == '(' {
        let inner = s.subrange(1, s.len() - 1);
        assert forall|i: int| 0 <= i < inner.len() implies inner[i] != ',' by {
            assert(inner[i] == s[i + 1]);
        }
        lemma_items_comma_free(inner);
        let items = parse_items(inner)->Ok_0;
        assert(joined(items, 0) == text_of(items[0]));
        lemma_wrapped_comma_free(seq!['('], joined(items, 0), seq![')']);
    } else {
    }
}

proof fn lemma_items_comma_free(inner: Seq<char>)
    requires
        parse_items(inner) is Ok,
        comma_free(inner),
    ensures
        parse_items(inner)->Ok_0.len() == 1,
        comma_free(text_of(parse_items(inner)->Ok_0[0])),
    decreases inner.len(), 1nat,
{
    lemma_comma_from_of_comma_free(inner, 0);
    assert(inner.subrange(0, inner.len() as int) =~= inner);
    lemma_trim_bounds(inner);
    let piece = trim(inner);
    assert forall|i: int| 0 <= i < piece.len() implies piece[i] != ',' by {
        assert(piece[i] == inner[i + trim_start_index(inner)]);
    }
    lemma_text_comma_free(piece);
}

/// Reading the canonical text of what a text denotes gives the same shape again.
pub proof fn lemma_parse_round_trip(s: Seq<char>)
    requires
        parse_text(s) is Ok,
    ensures
        parse_text(text_of(parse_text(s)->Ok_0)) == parse_text(s),
    decreases s.len(), 0nat,
{
    let m = parse_text(s)->Ok_0;
    let t = text_of(m);
    if has_prefix(s, vec_prefix()) {
        let inner = s.subrange(4, s.len() - 1);
        lemma_parse_round_trip(inner);
        let u = text_of(parse_text(inner)->Ok_0);
        assert(t == vec_prefix() + u + seq!['>']);
        assert(t.subrange(0, 4) =~= vec_prefix());
        assert(t[t.len() - 1] == '>');
        assert(t.subrange(4, t.len() - 1) =~= u);
    } else if has_prefix(s, option_prefix()) {
        let inner = s.subrange(7, s.len() - 1);
        lemma_parse_round_trip(inner);
        let u = text_of(parse_text(inner)->Ok_0);
        assert(t == option_prefix() + u + seq!['>']);
        assert(t[0] == 'O');
        assert(!has_prefix(t, vec_prefix())) by {
            if has_prefix(t, vec_prefix()) {
                assert(t.subrange(0, 4)[0] == vec_prefix()[0]);
            }
        }
        assert(t.subrange(0, 7) =~= option_prefix());
        assert(t[t.len() - 1] == '>');
        assert(t.subrange(7, t.len() - 1) =~= u);
    } else if s.len() >= 1 && s[0] == '(' {
        let inner = s.subrange(1, s.len() - 1);
        lemma_items_round_trip(inner);
        let items = parse_items(inner)->Ok_0;
        let u = joined(items, 0);
        assert(t == seq!['('] + u + seq![')']);
        assert(t[0] == '(');
        assert(!has_prefix(t, vec_prefix())) by {
            if has_prefix(t, vec_prefix()) {
                assert(t.subrange(0, 4)[0] == vec_prefix()[0]);
            }
        }
        assert(!has_prefix(t, option_prefix())) by {
            if has_prefix(t, option_prefix()) {
                assert(t.subrange(0, 7)[0] == option_prefix()[0]);
            }
        }
        assert(t[t.len() - 1] == ')');
        assert(t.subrange(1, t.len() - 1) =~= u);
    } else {
    }
}

proof fn lemma_items_round_trip(inner: Seq<char>)
    requires
        parse_items(inner) is Ok,
    ensures
        parse_items(inner)->Ok_0.len() >= 1,
        parse_items(joined(parse_items(inner)->Ok_0, 0)) == parse_items(inner),
    decreases inner.len(), 1nat,
{
    let items = parse_items(inner)->Ok_0;
    lemma_comma_from_bounds(inner, 0);
    let k = comma_from(inner, 0);
    let raw = inner.subrange(0, k);
    lemma_trim_bounds(raw);
    let piece = trim(raw);
    let head = parse_text(piece)->Ok_0;
    let t = text_of(head);
    lemma_parse_round_trip(piece);
    assert forall|i: int| 0 <= i < piece.len() implies piece[i] != ',' by {
        assert(piece[i] == raw[i + trim_start_index(raw)]);
        assert(raw[i + trim_start_index(raw)] == inner[i + trim_start_index(raw)]);
    }
    lemma_text_comma_free(piece);
    lemma_text_trimmed(piece);
    lemma_trim_of_trimmed(t);
    if k >= inner.len() {
        assert(items =~= seq![head]);
        assert(joined(items, 0) == t);
        lemma_comma_from_of_comma_free(t, 0);
        assert(t.subrange(0, t.len() as int) =~= t);
    } else {
        let rest_text = inner.subrange(k + 1, inner.len() as int);
        lemma_items_round_trip(rest_text);
        let rest = parse_items(rest_text)->Ok_0;
        assert(items =~= seq![head] + rest);
        lemma_joined_shift(head, rest, 0);
        let tail = joined(rest, 0);
        assert(items[0] == head);
        assert(joined(items, 0) == t + separator() + tail);
        let whole = joined(items, 0);
        assert(whole =~= t + seq![','] + (seq![' '] + tail));
        lemma_comma_from_after_head(t, seq![' '] + tail, 0);
        assert(whole.subrange(0, t.len() as int) =~= t);
        assert(whole.subrange(t.len() as int + 1, whole.len() as int) =~= seq![' '] + tail);
        lemma_parse_items_ignores_leading_blank(tail);
    }
}

} // verus!
