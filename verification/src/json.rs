//! JSON text building blocks.
//!
//! The wire format of the API is JSON; the spec functions here define, at the
//! level of character sequences, exactly what text the library emits for a
//! string, a boolean, an object member list or an array, and the executable
//! functions are proved to produce that text.

use vstd::prelude::*;

verus! {

/// Relies on String::push: appends exactly the one character to the string.
#[verifier::external_body]
pub fn push_char(out: &mut String, c: char)
    ensures
        final(out)@ == old(out)@ + seq![c],
{
    out.push(c);
}

/// One hexadecimal digit, lower case, for a value below 16.
pub open spec fn hex_digit(v: int) -> char {
    if v == 0 { '0' } else if v == 1 { '1' } else if v == 2 { '2' }
    else if v == 3 { '3' } else if v == 4 { '4' } else if v == 5 { '5' }
    else if v == 6 { '6' } else if v == 7 { '7' } else if v == 8 { '8' }
    else if v == 9 { '9' } else if v == 10 { 'a' } else if v == 11 { 'b' }
    else if v == 12 { 'c' } else if v == 13 { 'd' } else if v == 14 { 'e' }
    else { 'f' }
}

/// The escape sequence a character becomes inside a JSON string literal.
/// Quotes, backslashes and control characters are escaped; everything else
/// stands for itself.
pub open spec fn esc_char(c: char) -> Seq<char> {
    if c == '"' { seq!['\\', '"'] }
    else if c == '\\' { seq!['\\', '\\'] }
    else if c == '\u{8}' { seq!['\\', 'b'] }
    else if c == '\u{c}' { seq!['\\', 'f'] }
    else if c == '\n' { seq!['\\', 'n'] }
    else if c == '\r' { seq!['\\', 'r'] }
    else if c == '\t' { seq!['\\', 't'] }
    else if (c as u32) < 0x20 {
        seq!['\\', 'u', '0', '0', hex_digit(c as u32 as int / 16), hex_digit(c as u32 as int % 16)]
    }
    else { seq![c] }
}

/// A whole string content, escaped character by character.
pub open spec fn esc_str(s: Seq<char>) -> Seq<char>
    decreases s.len(),
{
    if s.len() == 0 {
        Seq::empty()
    } else {
        esc_char(s[0]) + esc_str(s.drop_first())
    }
}

/// The JSON text of a string value: quoted and escaped.
pub open spec fn jstr(s: Seq<char>) -> Seq<char> {
    seq!['"'] + esc_str(s) + seq!['"']
}

/// The JSON text of a boolean value.
pub open spec fn jbool(b: bool) -> Seq<char> {
    if b { seq!['t', 'r', 'u', 'e'] } else { seq!['f', 'a', 'l', 's', 'e'] }
}

/// The JSON text of the null value.
pub open spec fn jnull() -> Seq<char> {
    seq!['n', 'u', 'l', 'l']
}

/// Object members joined with commas: `"k0":v0,"k1":v1,...`.  Each member is
/// a key (raw, escaped here) and an already rendered value text.
pub open spec fn join_members(ms: Seq<(Seq<char>, Seq<char>)>) -> Seq<char>
    decreases ms.len(),
{
    if ms.len() == 0 {
        Seq::empty()
    } else if ms.len() == 1 {
        jstr(ms[0].0) + seq![':'] + ms[0].1
    } else {
        jstr(ms[0].0) + seq![':'] + ms[0].1 + seq![','] + join_members(ms.drop_first())
    }
}

/// The JSON text of an object with the given members, in the given order.
pub open spec fn jobj(ms: Seq<(Seq<char>, Seq<char>)>) -> Seq<char> {
    seq!['{'] + join_members(ms) + seq!['}']
}

/// Array elements joined with commas; each element is already rendered text.
pub open spec fn join_elems(es: Seq<Seq<char>>) -> Seq<char>
    decreases es.len(),
{
    if es.len() == 0 {
        Seq::empty()
    } else if es.len() == 1 {
        es[0]
    } else {
        es[0] + seq![','] + join_elems(es.drop_first())
    }
}

/// The JSON text of an array with the given elements, in the given order.
pub open spec fn jarr(es: Seq<Seq<char>>) -> Seq<char> {
    seq!['['] + join_elems(es) + seq![']']
}

/// The value text of the first member with the given key, if one exists:
/// what a reader of the object finds under that key.
pub open spec fn member_lookup(ms: Seq<(Seq<char>, Seq<char>)>, key: Seq<char>) -> Option<
    Seq<char>,
>
    decreases ms.len(),
{
    if ms.len() == 0 {
        None
    } else if ms[0].0 == key {
        Some(ms[0].1)
    } else {
        member_lookup(ms.drop_first(), key)
    }
}

/// Appending a member on the right extends the joined text on the right.
pub proof fn lemma_join_members_push(ms: Seq<(Seq<char>, Seq<char>)>, m: (Seq<char>, Seq<char>))
    ensures
        join_members(ms.push(m)) == if ms.len() == 0 {
            jstr(m.0) + seq![':'] + m.1
        } else {
            join_members(ms) + seq![','] + jstr(m.0) + seq![':'] + m.1
        },
    decreases ms.len(),
{
    if ms.len() == 0 {
        assert(ms.push(m)[0] == m);
        assert(ms.push(m).len() == 1);
    } else {
        lemma_join_members_push(ms.drop_first(), m);
        assert(ms.push(m).drop_first() =~= ms.drop_first().push(m));
        if ms.len() == 1 {
            assert(join_members(ms.push(m)) == jstr(ms[0].0) + seq![':'] + ms[0].1 + seq![',']
                + join_members(ms.drop_first().push(m)));
            assert(join_members(ms.push(m)) =~= join_members(ms) + seq![','] + jstr(m.0)
                + seq![':'] + m.1);
        } else {
            assert(join_members(ms.push(m)) =~= join_members(ms) + seq![','] + jstr(m.0)
                + seq![':'] + m.1);
        }
    }
}

/// Appending an element on the right extends the joined text on the right.
pub proof fn lemma_join_elems_push(es: Seq<Seq<char>>, e: Seq<char>)
    ensures
        join_elems(es.push(e)) == if es.len() == 0 {
            e
        } else {
            join_elems(es) + seq![','] + e
        },
    decreases es.len(),
{
    if es.len() == 0 {
        assert(es.push(e)[0] == e);
        assert(es.push(e).len() == 1);
    } else {
        lemma_join_elems_push(es.drop_first(), e);
        assert(es.push(e).drop_first() =~= es.drop_first().push(e));
        if es.len() == 1 {
            assert(join_elems(es.push(e)) =~= join_elems(es) + seq![','] + e);
        } else {
            assert(join_elems(es.push(e)) =~= join_elems(es) + seq![','] + e);
        }
    }
}

/// Escaping distributes over appending one character on the right.
pub proof fn lemma_esc_str_push(s: Seq<char>, c: char)
    ensures
        esc_str(s.push(c)) == esc_str(s) + esc_char(c),
    decreases s.len(),
{
    if s.len() == 0 {
        assert(s.push(c)[0] == c);
        assert(s.push(c).drop_first() =~= Seq::<char>::empty());
        assert(esc_str(Seq::<char>::empty()) == Seq::<char>::empty());
        assert(esc_str(s.push(c)) == esc_char(c) + esc_str(Seq::<char>::empty()));
        assert(esc_str(s.push(c)) =~= esc_str(s) + esc_char(c));
    } else {
        lemma_esc_str_push(s.drop_first(), c);
        assert(s.push(c).drop_first() =~= s.drop_first().push(c));
        assert(esc_str(s.push(c)) =~= esc_str(s) + esc_char(c));
    }
}

/// One hexadecimal digit as an executable value.
fn hex_digit_char(v: u32) -> (c: char)
    requires
        v < 16,
    ensures
        c == hex_digit(v as int),
{
    if v == 0 { '0' } else if v == 1 { '1' } else if v == 2 { '2' }
    else if v == 3 { '3' } else if v == 4 { '4' } else if v == 5 { '5' }
    else if v == 6 { '6' } else if v == 7 { '7' } else if v == 8 { '8' }
    else if v == 9 { '9' } else if v == 10 { 'a' } else if v == 11 { 'b' }
    else if v == 12 { 'c' } else if v == 13 { 'd' } else if v == 14 { 'e' }
    else { 'f' }
}

/// Appends one character in its escaped form.
fn push_escaped_char(out: &mut String, c: char)
    ensures
        final(out)@ == old(out)@ + esc_char(c),
{
    if c == '"' {
        push_char(out, '\\');
        push_char(out, '"');
        assert(final(out)@ =~= old(out)@ + esc_char(c));
    } else if c == '\\' {
        push_char(out, '\\');
        push_char(out, '\\');
        assert(final(out)@ =~= old(out)@ + esc_char(c));
    } else if c == '\u{8}' {
        push_char(out, '\\');
        push_char(out, 'b');
        assert(final(out)@ =~= old(out)@ + esc_char(c));
    } else if c == '\u{c}' {
        push_char(out, '\\');
        push_char(out, 'f');
        assert(final(out)@ =~= old(out)@ + esc_char(c));
    } else if c == '\n' {
        push_char(out, '\\');
        push_char(out, 'n');
        assert(final(out)@ =~= old(out)@ + esc_char(c));
    } else if c == '\r' {
        push_char(out, '\\');
        push_char(out, 'r');
        assert(final(out)@ =~= old(out)@ + esc_char(c));
    } else if c == '\t' {
        push_char(out, '\\');
        push_char(out, 't');
        assert(final(out)@ =~= old(out)@ + esc_char(c));
    } else if (c as u32) < 0x20 {
        push_char(out, '\\');
        push_char(out, 'u');
        push_char(out, '0');
        push_char(out, '0');
        push_char(out, hex_digit_char((c as u32) / 16));
        push_char(out, hex_digit_char((c as u32) % 16));
        assert(final(out)@ =~= old(out)@ + esc_char(c));
    } else {
        push_char(out, c);
        assert(final(out)@ =~= old(out)@ + esc_char(c));
    }
}

/// Appends the JSON text of a string value: quoted and escaped.
pub fn append_jstr(out: &mut String, s: &str)
    ensures
        final(out)@ == old(out)@ + jstr(s@),
{
    push_char(out, '"');
    let n = s.unicode_len();
    let mut i: usize = 0;
    while i < n
        invariant
            n == s@.len(),
            i <= n,
            out@ == old(out)@ + seq!['"'] + esc_str(s@.subrange(0, i as int)),
        decreases n - i,
    {
        let c = s.get_char(i);
        push_escaped_char(out, c);
        proof {
            assert(s@.subrange(0, i + 1) =~= s@.subrange(0, i as int).push(s@[i as int]));
            lemma_esc_str_push(s@.subrange(0, i as int), s@[i as int]);
            assert(out@ =~= old(out)@ + seq!['"'] + esc_str(s@.subrange(0, i + 1)));
        }
        i = i + 1;
    }
    push_char(out, '"');
    proof {
        assert(s@.subrange(0, s@.len() as int) =~= s@);
        assert(final(out)@ =~= old(out)@ + jstr(s@));
    }
}

/// Appends the JSON text of a boolean value.
pub fn append_jbool(out: &mut String, b: bool)
    ensures
        final(out)@ == old(out)@ + jbool(b),
{
    if b {
        push_char(out, 't');
        push_char(out, 'r');
        push_char(out, 'u');
        push_char(out, 'e');
    } else {
        push_char(out, 'f');
        push_char(out, 'a');
        push_char(out, 'l');
        push_char(out, 's');
        push_char(out, 'e');
    }
    assert(final(out)@ =~= old(out)@ + jbool(b));
}

/// Appends the JSON text of the null value.
pub fn append_jnull(out: &mut String)
    ensures
        final(out)@ == old(out)@ + jnull(),
{
    push_char(out, 'n');
    push_char(out, 'u');
    push_char(out, 'l');
    push_char(out, 'l');
    assert(final(out)@ =~= old(out)@ + jnull());
}

/// Builds the text of one JSON object, member by member, in order.
pub struct ObjWriter {
    out: String,
    ms: Ghost<Seq<(Seq<char>, Seq<char>)>>,
}

impl ObjWriter {
    /// The member list written so far.
    pub closed spec fn members(&self) -> Seq<(Seq<char>, Seq<char>)> {
        self.ms@
    }

    /// The text built so far agrees with the member list.
    pub closed spec fn wf(&self) -> bool {
        self.out@ == seq!['{'] + join_members(self.ms@)
    }

    pub fn new() -> (w: ObjWriter)
        ensures
            w.wf(),
            w.members() == Seq::<(Seq<char>, Seq<char>)>::empty(),
    {
        let mut out = String::new();
        push_char(&mut out, '{');
        let w = ObjWriter { out, ms: Ghost(Seq::empty()) };
        proof {
            assert(w.out@ =~= seq!['{'] + join_members(w.ms@));
        }
        w
    }

    /// Writes one member whose value text was rendered beforehand.
    pub fn member_raw(&mut self, key: &str, value_text: &str)
        requires
            old(self).wf(),
        ensures
            final(self).wf(),
            final(self).members() == old(self).members().push((key@, value_text@)),
    {
        if self.out.as_str().unicode_len() > 1 {
            push_char(&mut self.out, ',');
        }
        append_jstr(&mut self.out, key);
        push_char(&mut self.out, ':');
        self.out.append(value_text);
        proof {
            lemma_join_members_push(old(self).ms@, (key@, value_text@));
            if old(self).ms@.len() == 0 {
                assert(join_members(old(self).ms@) == Seq::<char>::empty());
                assert(old(self).out@.len() == 1);
            } else {
                assert(join_members(old(self).ms@).len() > 0) by {
                    lemma_join_members_len(old(self).ms@);
                }
            }
            self.ms@ = old(self).ms@.push((key@, value_text@));
            assert(self.out@ =~= seq!['{'] + join_members(self.ms@));
        }
    }

    /// Writes one member with a string value.
    pub fn member_str(&mut self, key: &str, value: &str)
        requires
            old(self).wf(),
        ensures
            final(self).wf(),
            final(self).members() == old(self).members().push((key@, jstr(value@))),
    {
        let mut v = String::new();
        append_jstr(&mut v, value);
        assert(v@ =~= jstr(value@));
        self.member_raw(key, v.as_str());
    }

    /// Closes the object and hands its text out.
    pub fn finish(self) -> (r: String)
        requires
            self.wf(),
        ensures
            r@ == jobj(self.members()),
    {
        let ObjWriter { out, ms } = self;
        let mut out = out;
        push_char(&mut out, '}');
        proof {
            assert(out@ =~= jobj(ms@));
        }
        out
    }
}

/// A non-empty member list renders to non-empty text.
proof fn lemma_join_members_len(ms: Seq<(Seq<char>, Seq<char>)>)
    requires
        ms.len() > 0,
    ensures
        join_members(ms).len() > 0,
{
    assert(jstr(ms[0].0).len() >= 2);
}

/// Builds the text of one JSON array, element by element, in order.
pub struct ArrWriter {
    out: String,
    es: Ghost<Seq<Seq<char>>>,
}

impl ArrWriter {
    /// The element list written so far.
    pub closed spec fn elems(&self) -> Seq<Seq<char>> {
        self.es@
    }

    /// The text built so far agrees with the element list.
    pub closed spec fn wf(&self) -> bool {
        &&& self.out@ == seq!['['] + join_elems(self.es@)
        &&& forall|i: int| 0 <= i < self.es@.len() ==> (#[trigger] self.es@[i]).len() > 0
    }

    pub fn new() -> (w: ArrWriter)
        ensures
            w.wf(),
            w.elems() == Seq::<Seq<char>>::empty(),
    {
        let mut out = String::new();
        push_char(&mut out, '[');
        let w = ArrWriter { out, es: Ghost(Seq::empty()) };
        proof {
            assert(w.out@ =~= seq!['['] + join_elems(w.es@));
        }
        w
    }

    /// Writes one element whose text was rendered beforehand.
    pub fn elem_raw(&mut self, elem_text: &str)
        requires
            old(self).wf(),
            elem_text@.len() > 0,
        ensures
            final(self).wf(),
            final(self).elems() == old(self).elems().push(elem_text@),
    {
        if self.out.as_str().unicode_len() > 1 {
            push_char(&mut self.out, ',');
        }
        self.out.append(elem_text);
        proof {
            lemma_join_elems_push(old(self).es@, elem_text@);
            if old(self).es@.len() == 0 {
                assert(join_elems(old(self).es@) == Seq::<char>::empty());
                assert(old(self).out@.len() == 1);
            } else {
                assert(join_elems(old(self).es@).len() > 0) by {
                    lemma_join_elems_len(old(self).es@);
                }
            }
            self.es@ = old(self).es@.push(elem_text@);
            assert(self.out@ =~= seq!['['] + join_elems(self.es@));
        }
    }

    /// Closes the array and hands its text out.
    pub fn finish(self) -> (r: String)
        requires
            self.wf(),
        ensures
            r@ == jarr(self.elems()),
    {
        let ArrWriter { out, es } = self;
        let mut out = out;
        push_char(&mut out, ']');
        proof {
            assert(out@ =~= jarr(es@));
        }
        out
    }
}

/// A list of non-empty elements renders to non-empty text.
proof fn lemma_join_elems_len(es: Seq<Seq<char>>)
    requires
        es.len() > 0,
        es[0].len() > 0,
    ensures
        join_elems(es).len() > 0,
{
}

} // verus!
