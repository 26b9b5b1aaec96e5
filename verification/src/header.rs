//! Headers read in place from the bytes of a response.
//!
//! A [`Header`] is two string slices that borrow from the buffer they were
//! parsed from. [`Headers`] holds at most [`MAX_HEADERS`] of them, in the
//! order in which they were received, and hands them out one by one.

use vstd::prelude::*;
use vstd::string::StringSliceAdditionalSpecFns;
use vstd::utf8::decode_utf8;
use vstd::utf8::encode_utf8_decode_utf8;
use vstd::utf8::valid_utf8;
use crate::text::eq_ignore_ascii_case;
use crate::text::same_ignoring_ascii_case;

verus! {

/// The number of headers that are kept of one response. Headers received
/// after that many are dropped.
pub const MAX_HEADERS: usize = 32;

/// What a raw header holds: the characters of its name and the bytes of its
/// value.
pub type RawSlot = (Seq<char>, Seq<u8>);

/// What a header holds: the characters of its name and of its value.
pub type HeaderText = (Seq<char>, Seq<char>);

/// A header as the parser leaves it: the name as text, the value as the
/// bytes that were received, which need not be text. A slot that the parser
/// did not fill has an empty name.
#[derive(Clone, Copy, Debug)]
pub struct RawHeader<'a> {
    pub name: &'a str,
    pub value: &'a [u8],
}

impl<'a> View for RawHeader<'a> {
    type V = RawSlot;

    open spec fn view(&self) -> RawSlot {
        (self.name@, self.value@)
    }
}

/// A single header.
#[derive(Clone, Copy)]
pub struct Header<'a> {
    pub name: &'a str,
    pub value: &'a str,
}

impl<'a> View for Header<'a> {
    type V = HeaderText;

    open spec fn view(&self) -> HeaderText {
        (self.name@, self.value@)
    }
}

/// The contents of a run of raw headers.
pub open spec fn raw_slots(raw: Seq<RawHeader>) -> Seq<RawSlot> {
    raw.map_values(|h: RawHeader| h@)
}

/// The number of slots before the first one whose name is empty: all of
/// them if every name has at least one character.
pub open spec fn named_len(slots: Seq<RawSlot>) -> nat
    decreases slots.len(),
{
    if slots.len() == 0 || slots[0].0.len() == 0 {
        0
    } else {
        1 + named_len(slots.drop_first())
    }
}

/// A raw header as text: its name and its decoded value where the value is
/// valid UTF-8, nothing where it is not.
pub open spec fn slot_text(slot: RawSlot) -> Option<HeaderText> {
    if valid_utf8(slot.1) {
        Some((slot.0, decode_utf8(slot.1)))
    } else {
        None
    }
}

/// [`slot_text`] as a function value.
pub open spec fn text_of() -> spec_fn(RawSlot) -> Option<HeaderText> {
    |slot: RawSlot| slot_text(slot)
}

/// The headers that are kept of a run of raw headers. Only the first
/// [`MAX_HEADERS`] slots count, and of those the ones before the first empty
/// name. A header whose value is not valid UTF-8 is left out; the others
/// follow in the order of the slots.
pub open spec fn collect_headers(slots: Seq<RawSlot>) -> Seq<HeaderText> {
    let window = if slots.len() <= MAX_HEADERS {
        slots
    } else {
        slots.take(MAX_HEADERS as int)
    };
    window.take(named_len(window) as int).filter_map(text_of())
}

/// A header as one piece of text: the name and the value with a colon
/// between them, in square brackets.
pub open spec fn header_line(h: HeaderText) -> Seq<char> {
    "[ "@ + h.0 + ": "@ + h.1 + " ]"@
}

/// A run of headers as one piece of text: the line of each, one after the
/// other with nothing between them.
pub open spec fn header_lines(entries: Seq<HeaderText>) -> Seq<char>
    decreases entries.len(),
{
    if entries.len() == 0 {
        Seq::empty()
    } else {
        header_lines(entries.drop_last()) + header_line(entries.last())
    }
}

/// `n` is the number of named slots at the front if the first `n` names are
/// not empty and the one after them, if there is one, is.
pub proof fn lemma_named_len(slots: Seq<RawSlot>, n: int)
    requires
        0 <= n <= slots.len(),
        forall|i: int| 0 <= i < n ==> (#[trigger] slots[i]).0.len() > 0,
        n < slots.len() ==> slots[n].0.len() == 0,
    ensures
        named_len(slots) == n,
    decreases slots.len(),
{
    if n > 0 {
        let rest = slots.drop_first();
        assert(slots[0].0.len() > 0);
        assert forall|i: int| 0 <= i < n - 1 implies (#[trigger] rest[i]).0.len() > 0 by {
            assert(rest[i] == slots[i + 1]);
        }
        lemma_named_len(rest, n - 1);
    }
}

/// No more than [`MAX_HEADERS`] headers are kept, and no more than there
/// are named slots at the front.
pub proof fn lemma_collect_headers_len(slots: Seq<RawSlot>)
    ensures
        collect_headers(slots).len() <= MAX_HEADERS,
        collect_headers(slots).len() <= slots.len(),
{
    let window = if slots.len() <= MAX_HEADERS {
        slots
    } else {
        slots.take(MAX_HEADERS as int)
    };
    lemma_named_len_bounded(window);
    lemma_filter_map_len(window.take(named_len(window) as int));
}

/// Where every slot is named and every value is valid UTF-8, each of the
/// first [`MAX_HEADERS`] slots gives one header, in the order of the slots:
/// all of them if there are no more than that, exactly [`MAX_HEADERS`]
/// otherwise.
pub proof fn lemma_collect_headers_well_formed(slots: Seq<RawSlot>)
    requires
        forall|i: int| 0 <= i < slots.len() ==> (#[trigger] slots[i]).0.len() > 0,
        forall|i: int| 0 <= i < slots.len() ==> valid_utf8((#[trigger] slots[i]).1),
    ensures
        collect_headers(slots).len() == if slots.len() <= MAX_HEADERS {
            slots.len()
        } else {
            MAX_HEADERS as nat
        },
        forall|i: int|
            0 <= i < collect_headers(slots).len() ==> #[trigger] collect_headers(slots)[i] == (
                slots[i].0,
                decode_utf8(slots[i].1),
            ),
{
    let window = if slots.len() <= MAX_HEADERS {
        slots
    } else {
        slots.take(MAX_HEADERS as int)
    };
    lemma_named_len(window, window.len() as int);
    assert(window.take(window.len() as int) == window);
    lemma_filter_map_all(window);
}

/// A slot whose value is not valid UTF-8 gives no header, and takes
/// nothing away from the others: the headers kept are those of the slots
/// before it followed by those of the slots after it, as long as all of
/// them are named and lie within the first [`MAX_HEADERS`].
pub proof fn lemma_collect_headers_skips(slots: Seq<RawSlot>, bad: int)
    requires
        0 <= bad < slots.len() <= MAX_HEADERS,
        forall|i: int| 0 <= i < slots.len() ==> (#[trigger] slots[i]).0.len() > 0,
        !valid_utf8(slots[bad].1),
    ensures
        collect_headers(slots) == collect_headers(slots.take(bad)) + collect_headers(
            slots.skip(bad + 1),
        ),
{
    let before = slots.take(bad);
    let after = slots.skip(bad + 1);
    lemma_named_len(slots, slots.len() as int);
    lemma_named_len(before, before.len() as int);
    lemma_named_len(after, after.len() as int);
    assert(slots.take(slots.len() as int) == slots);
    assert(before.take(before.len() as int) == before);
    assert(after.take(after.len() as int) == after);
    lemma_filter_map_concat(before, seq![slots[bad]] + after);
    lemma_filter_map_concat(seq![slots[bad]], after);
    Seq::lemma_filter_map_singleton(slots[bad], text_of());
    assert(slots == before + (seq![slots[bad]] + after));
    assert(Seq::<HeaderText>::empty() + after.filter_map(text_of()) == after.filter_map(
        text_of(),
    ));
}

proof fn lemma_named_len_bounded(slots: Seq<RawSlot>)
    ensures
        named_len(slots) <= slots.len(),
    decreases slots.len(),
{
    if slots.len() > 0 && slots[0].0.len() > 0 {
        lemma_named_len_bounded(slots.drop_first());
    }
}

proof fn lemma_filter_map_len(slots: Seq<RawSlot>)
    ensures
        slots.filter_map(text_of()).len() <= slots.len(),
    decreases slots.len(),
{
    if slots.len() > 0 {
        lemma_filter_map_len(slots.drop_last());
    }
}

proof fn lemma_filter_map_all(slots: Seq<RawSlot>)
    requires
        forall|i: int| 0 <= i < slots.len() ==> valid_utf8((#[trigger] slots[i]).1),
    ensures
        slots.filter_map(text_of()).len() == slots.len(),
        forall|i: int|
            0 <= i < slots.len() ==> #[trigger] slots.filter_map(text_of())[i] == (
                slots[i].0,
                decode_utf8(slots[i].1),
            ),
    decreases slots.len(),
{
    if slots.len() > 0 {
        let front = slots.drop_last();
        assert forall|i: int| 0 <= i < front.len() implies valid_utf8((#[trigger] front[i]).1) by {
            assert(front[i] == slots[i]);
        }
        lemma_filter_map_all(front);
        assert(valid_utf8(slots.last().1));
    }
}

proof fn lemma_filter_map_concat(a: Seq<RawSlot>, b: Seq<RawSlot>)
    ensures
        (a + b).filter_map(text_of()) == a.filter_map(text_of()) + b.filter_map(text_of()),
    decreases b.len(),
{
    if b.len() == 0 {
        assert(a + b == a);
        assert(a.filter_map(text_of()) + b.filter_map(text_of()) == a.filter_map(text_of()));
    } else {
        assert((a + b).drop_last() == a + b.drop_last());
        assert((a + b).last() == b.last());
        lemma_filter_map_concat(a, b.drop_last());
        match slot_text(b.last()) {
            Some(t) => {
                assert((a.filter_map(text_of()) + b.drop_last().filter_map(text_of())) + seq![t]
                    == a.filter_map(text_of()) + (b.drop_last().filter_map(text_of()) + seq![t]));
            },
            None => {},
        }
    }
}

/// `core::str::from_utf8`, with the error dropped: there is a string
/// exactly when the bytes are valid UTF-8, and it is made of those bytes.
#[verifier::external_body]
fn utf8_text<'a>(bytes: &'a [u8]) -> (text: Option<&'a str>)
    ensures
        text is Some <==> valid_utf8(bytes@),
        text matches Some(s) ==> s.spec_bytes() == bytes@,
{
    match core::str::from_utf8(bytes) {
        Ok(s) => Some(s),
        Err(_) => None,
    }
}

impl<'a> Default for Header<'a> {
    /// The header with an empty name and an empty value.
    fn default() -> (h: Header<'a>)
        ensures
            h@ == (Seq::<char>::empty(), Seq::<char>::empty()),
    {
        proof {
            reveal_strlit("");
        }
        Header { name: "", value: "" }
    }
}

impl<'a> Header<'a> {
    /// The header with the given name and value.
    pub fn new(n: &'a str, v: &'a str) -> (h: Header<'a>)
        ensures
            h.name == n,
            h.value == v,
            h@ == (n@, v@),
    {
        Header { name: n, value: v }
    }

    /// Whether this header has the name `v`, without regard to the case of
    /// ASCII letters. Letters outside ASCII are compared as they are.
    pub fn is(&self, v: &str) -> (same: bool)
        ensures
            same == same_ignoring_ascii_case(self.name@, v@),
    {
        eq_ignore_ascii_case(self.name, v)
    }

    /// The header as text, `[ name: value ]`.
    pub fn to_string(&self) -> (s: String)
        ensures
            s@ == header_line(self@),
    {
        let mut s = String::from_str("[ ");
        s.append(self.name);
        s.append(": ");
        s.append(self.value);
        s.append(" ]");
        s
    }
}

/// The headers of one response, in the order in which they were received,
/// with the place of the next one to hand out.
#[derive(Clone, Copy)]
pub struct Headers<'a> {
    headers: [Header<'a>; MAX_HEADERS],
    len: usize,
    next: usize,
}

impl<'a> Default for Headers<'a> {
    /// No headers.
    fn default() -> (out: Headers<'a>)
        ensures
            out.entries() == Seq::<HeaderText>::empty(),
            out.position() == 0,
    {
        Headers::new()
    }
}

impl<'a> Headers<'a> {
    #[verifier::type_invariant]
    closed spec fn wf(&self) -> bool {
        self.next <= self.len <= MAX_HEADERS
    }

    /// All the headers that are held, whether handed out or not.
    pub closed spec fn entries(&self) -> Seq<HeaderText> {
        Seq::new(self.len as nat, |i: int| self.headers@[i]@)
    }

    /// How many of the headers have been handed out.
    pub closed spec fn position(&self) -> nat {
        self.next as nat
    }

    /// The headers that are still to come.
    pub open spec fn remaining(&self) -> Seq<HeaderText> {
        self.entries().skip(self.position() as int)
    }

    /// No headers.
    pub fn new() -> (out: Headers<'a>)
        ensures
            out.entries() == Seq::<HeaderText>::empty(),
            out.position() == 0,
    {
        Headers { headers: [Header::default(); MAX_HEADERS], len: 0, next: 0 }
    }

    /// The headers that are kept of `raw`, none of them handed out yet.
    pub fn from_raw(raw: &[RawHeader<'a>]) -> (out: Headers<'a>)
        ensures
            out.entries() == collect_headers(raw_slots(raw@)),
            out.position() == 0,
    {
        let n: usize = if raw.len() <= MAX_HEADERS {
            raw.len()
        } else {
            MAX_HEADERS
        };
        let ghost window = raw_slots(raw@).take(n as int);
        let mut slots: [Header<'a>; MAX_HEADERS] = [Header::default(); MAX_HEADERS];
        let mut pos: usize = 0;
        let mut i: usize = 0;
        while i < n && !raw[i].name.is_empty()
            invariant
                n <= raw.len(),
                n <= MAX_HEADERS,
                window == raw_slots(raw@).take(n as int),
                pos <= i <= n,
                forall|j: int| 0 <= j < i ==> (#[trigger] window[j]).0.len() > 0,
                Seq::new(pos as nat, |k: int| slots@[k]@) == window.take(i as int).filter_map(
                    text_of(),
                ),
            decreases n - i,
        {
            let h = raw[i];
            proof {
                window.lemma_filter_map_take_succ(text_of(), i as int);
                assert(window[i as int] == h@);
            }
            match utf8_text(h.value) {
                Some(v) => {
                    proof {
                        encode_utf8_decode_utf8(v@);
                    }
                    slots[pos] = Header::new(h.name, v);
                    pos = pos + 1;
                },
                None => {},
            }
            i = i + 1;
        }
        proof {
            lemma_named_len(window, i as int);
            assert(raw_slots(raw@).take(raw@.len() as int) == raw_slots(raw@));
        }
        Headers { headers: slots, len: pos, next: 0 }
    }

    /// The number of headers that are held.
    pub fn len(&self) -> (n: usize)
        ensures
            n == self.entries().len(),
            n <= MAX_HEADERS,
    {
        proof {
            use_type_invariant(self);
        }
        self.len
    }

    /// All the headers as text, handed out or not, each as
    /// [`Header::to_string`] writes it.
    pub fn to_string(&self) -> (s: String)
        ensures
            s@ == header_lines(self.entries()),
    {
        proof {
            use_type_invariant(self);
        }
        let mut s = String::new();
        let mut i: usize = 0;
        while i < self.len
            invariant
                i <= self.len <= MAX_HEADERS,
                s@ == header_lines(self.entries().take(i as int)),
            decreases self.len - i,
        {
            let line = self.headers[i].to_string();
            proof {
                let upto = self.entries().take(i + 1);
                assert(upto.drop_last() == self.entries().take(i as int));
                assert(upto.last() == self.headers@[i as int]@);
            }
            s.append(line.as_str());
            i = i + 1;
        }
        assert(self.entries().take(self.len as int) == self.entries());
        s
    }

    /// Hands out the next header, or nothing once all have been handed out.
    pub fn next(&mut self) -> (item: Option<Header<'a>>)
        ensures
            final(self).entries() == old(self).entries(),
            old(self).position() < old(self).entries().len() ==> {
                &&& item matches Some(h)
                &&& h@ == old(self).entries()[old(self).position() as int]
                &&& final(self).position() == old(self).position() + 1
            },
            old(self).position() >= old(self).entries().len() ==> {
                &&& item is None
                &&& final(self).position() == old(self).position()
            },
    {
        proof {
            use_type_invariant(&*self);
        }
        if self.next == self.len {
            return None;
        }
        let h = self.headers[self.next];
        self.next = self.next + 1;
        Some(h)
    }
}

} // verus!
