use vstd::prelude::*;

verus! {

/// The byte that ends a line in the transcript.
pub const NEWLINE: u8 = 0x0a;

/// Bytes the screen treats as a destructive backspace: BS and DEL.
pub open spec fn is_backspace(b: u8) -> bool {
    b == 0x08 || b == 0x7f
}

/// The number of newline bytes in `s`: the row the cursor sits on after `s`
/// has been placed on the screen.
pub open spec fn rows_of(s: Seq<u8>) -> nat
    decreases s.len(),
{
    if s.len() == 0 {
        0
    } else if s.last() == NEWLINE {
        rows_of(s.drop_last()) + 1
    } else {
        rows_of(s.drop_last())
    }
}

/// The number of bytes in `s` after its last newline (or since the start,
/// if `s` has no newline): the cursor's column after `s`.
pub open spec fn col_of(s: Seq<u8>) -> nat
    decreases s.len(),
{
    if s.len() == 0 {
        0
    } else if s.last() == NEWLINE {
        0
    } else {
        col_of(s.drop_last()) + 1
    }
}

/// One byte of child output applied to a transcript: a backspace removes the
/// last byte of the current line if the line is non-empty and otherwise does
/// nothing; every other byte is appended.
pub open spec fn step(t: Seq<u8>, b: u8) -> Seq<u8> {
    if is_backspace(b) {
        if col_of(t) > 0 {
            t.drop_last()
        } else {
            t
        }
    } else {
        t.push(b)
    }
}

/// A chunk of child output applied to a transcript, byte by byte, left to
/// right.
pub open spec fn feed_spec(t: Seq<u8>, bs: Seq<u8>) -> Seq<u8>
    decreases bs.len(),
{
    if bs.len() == 0 {
        t
    } else {
        feed_spec(step(t, bs.first()), bs.drop_first())
    }
}

/// The row never exceeds the transcript's length, so it always fits where a
/// length fits.
pub proof fn lemma_rows_of_le_len(s: Seq<u8>)
    ensures
        rows_of(s) <= s.len(),
    decreases s.len(),
{
    if s.len() > 0 {
        lemma_rows_of_le_len(s.drop_last());
    }
}

/// The column never exceeds the transcript's length, so it always fits
/// where a length fits.
pub proof fn lemma_col_of_le_len(s: Seq<u8>)
    ensures
        col_of(s) <= s.len(),
    decreases s.len(),
{
    if s.len() > 0 {
        lemma_col_of_le_len(s.drop_last());
    }
}

/// Applying a chunk and then one more byte is the same as applying the chunk
/// with that byte appended.
pub proof fn lemma_feed_spec_snoc(t: Seq<u8>, bs: Seq<u8>, b: u8)
    ensures
        feed_spec(t, bs.push(b)) == step(feed_spec(t, bs), b),
    decreases bs.len(),
{
    if bs.len() == 0 {
        assert(bs.push(b).first() == b);
        assert(bs.push(b).drop_first() =~= Seq::<u8>::empty());
        assert(feed_spec(t, bs.push(b)) == feed_spec(step(t, b), bs.push(b).drop_first()));
    } else {
        assert(bs.push(b).first() == bs.first());
        assert(bs.push(b).drop_first() =~= bs.drop_first().push(b));
        lemma_feed_spec_snoc(step(t, bs.first()), bs.drop_first(), b);
    }
}

/// Law: a chunk with no backspace bytes is appended to the transcript
/// verbatim.
pub proof fn lemma_feed_appends(t: Seq<u8>, bs: Seq<u8>)
    requires
        forall|i: int| 0 <= i < bs.len() ==> !is_backspace(bs[i]),
    ensures
        feed_spec(t, bs) == t + bs,
    decreases bs.len(),
{
    if bs.len() == 0 {
        assert(t + bs =~= t);
    } else {
        assert(!is_backspace(bs[0]));
        assert(forall|i: int|
            0 <= i < bs.drop_first().len() ==> !is_backspace(#[trigger] bs.drop_first()[i]));
        lemma_feed_appends(t.push(bs.first()), bs.drop_first());
        assert(t.push(bs.first()) + bs.drop_first() =~= t + bs);
    }
}

/// Feeding one chunk and then another is feeding their concatenation.
pub proof fn lemma_feed_spec_append(t: Seq<u8>, a: Seq<u8>, c: Seq<u8>)
    ensures
        feed_spec(t, a + c) == feed_spec(feed_spec(t, a), c),
    decreases a.len(),
{
    if a.len() == 0 {
        assert(a + c =~= c);
    } else {
        assert((a + c).first() == a.first());
        assert((a + c).drop_first() =~= a.drop_first() + c);
        lemma_feed_spec_append(step(t, a.first()), a.drop_first(), c);
    }
}

/// The row count is exactly the number of newline bytes in the transcript.
pub proof fn lemma_rows_of_is_newline_count(s: Seq<u8>)
    ensures
        rows_of(s) == s.filter(|x: u8| x == NEWLINE).len(),
    decreases s.len(),
{
    reveal(Seq::filter);
    if s.len() > 0 {
        lemma_rows_of_is_newline_count(s.drop_last());
    }
}

/// The column counts bytes since the last newline: after anything that ends
/// in a newline (or nothing at all), newline-free bytes put the column at
/// exactly their count.
pub proof fn lemma_col_of_counts_since_newline(a: Seq<u8>, c: Seq<u8>)
    requires
        a.len() > 0 ==> a.last() == NEWLINE,
        forall|i: int| 0 <= i < c.len() ==> c[i] != NEWLINE,
    ensures
        col_of(a + c) == c.len(),
    decreases c.len(),
{
    if c.len() == 0 {
        assert(a + c =~= a);
    } else {
        assert((a + c).last() == c.last());
        assert(c[c.len() - 1] != NEWLINE);
        assert((a + c).drop_last() =~= a + c.drop_last());
        assert(forall|i: int|
            0 <= i < c.drop_last().len() ==> #[trigger] c.drop_last()[i] != NEWLINE);
        lemma_col_of_counts_since_newline(a, c.drop_last());
    }
}

/// Law: after feeding bytes none of which is a backspace (printable text
/// and newlines in particular) into a fresh screen, the transcript is
/// exactly the bytes fed, the row is the number of newline bytes among
/// them, and the column the number of bytes after the last newline (all of
/// them, when none was a newline).
pub proof fn lemma_feed_printable_cursor(bs: Seq<u8>)
    requires
        forall|i: int| 0 <= i < bs.len() ==> !is_backspace(bs[i]),
    ensures
        feed_spec(Seq::empty(), bs) == bs,
        rows_of(bs) == bs.filter(|x: u8| x == NEWLINE).len(),
        (forall|i: int| 0 <= i < bs.len() ==> bs[i] != NEWLINE) ==> col_of(bs) == bs.len(),
{
    lemma_feed_appends(Seq::empty(), bs);
    assert(Seq::empty() + bs =~= bs);
    lemma_rows_of_is_newline_count(bs);
    if forall|i: int| 0 <= i < bs.len() ==> bs[i] != NEWLINE {
        lemma_col_of_counts_since_newline(Seq::empty(), bs);
    }
}

/// Law: a backspace that arrives with the cursor at column zero changes
/// nothing — not the transcript, and therefore not the cursor either.
pub proof fn lemma_backspace_at_origin_is_noop(t: Seq<u8>, b: u8)
    requires
        is_backspace(b),
        col_of(t) == 0,
    ensures
        step(t, b) == t,
{
}

/// Law: a backspace that arrives with the cursor past column zero removes
/// exactly the last transcript byte, moves the column back by exactly one,
/// and leaves the row alone.
pub proof fn lemma_backspace_pops_one(t: Seq<u8>, b: u8)
    requires
        is_backspace(b),
        col_of(t) > 0,
    ensures
        step(t, b) == t.drop_last(),
        step(t, b).len() == t.len() - 1,
        col_of(step(t, b)) == col_of(t) - 1,
        rows_of(step(t, b)) == rows_of(t),
{
}

proof fn lemma_backspaces_unwind(t: Seq<u8>, p: Seq<u8>, b: u8)
    requires
        is_backspace(b),
        forall|i: int| 0 <= i < p.len() ==> p[i] != NEWLINE,
    ensures
        feed_spec(t + p, Seq::new(p.len(), |i: int| b)) == t,
    decreases p.len(),
{
    let bseq = Seq::new(p.len(), |i: int| b);
    if p.len() == 0 {
        assert(t + p =~= t);
    } else {
        assert(bseq.first() == b);
        assert((t + p).last() == p.last());
        assert(p[p.len() - 1] != NEWLINE);
        assert(col_of(t + p) > 0);
        assert(step(t + p, b) == (t + p).drop_last());
        assert((t + p).drop_last() =~= t + p.drop_last());
        assert(bseq.drop_first() =~= Seq::new(p.drop_last().len(), |i: int| b));
        assert(forall|i: int|
            0 <= i < p.drop_last().len() ==> #[trigger] p.drop_last()[i] != NEWLINE);
        lemma_backspaces_unwind(t, p.drop_last(), b);
    }
}

/// Law: feeding N bytes that are neither backspaces nor newlines and then N
/// backspaces returns the transcript — and with it the cursor — to exactly
/// the state it was in before the feed.
pub proof fn lemma_feed_then_backspaces_round_trip(t: Seq<u8>, p: Seq<u8>, b: u8)
    requires
        is_backspace(b),
        forall|i: int| 0 <= i < p.len() ==> !is_backspace(#[trigger] p[i]) && p[i] != NEWLINE,
    ensures
        feed_spec(t, p + Seq::new(p.len(), |i: int| b)) == t,
{
    lemma_feed_spec_append(t, p, Seq::new(p.len(), |i: int| b));
    lemma_feed_appends(t, p);
    lemma_backspaces_unwind(t, p, b);
}

/// An append-oriented transcript of the bytes received from the child
/// process, together with the cursor position those bytes put the screen in.
pub struct ScreenBuffer {
    transcript: Vec<u8>,
    row: usize,
    col: usize,
}

impl View for ScreenBuffer {
    type V = Seq<u8>;

    closed spec fn view(&self) -> Seq<u8> {
        self.transcript@
    }
}

impl ScreenBuffer {
    /// The cursor is not stored freely: it is always the row and column that
    /// the transcript itself determines.
    pub closed spec fn wf(&self) -> bool {
        self.row == rows_of(self@) && self.col == col_of(self@)
    }

    /// A fresh screen: empty transcript, cursor at the origin.
    pub fn new() -> (r: ScreenBuffer)
        ensures
            r.wf(),
            r@ == Seq::<u8>::empty(),
    {
        ScreenBuffer { transcript: Vec::new(), row: 0, col: 0 }
    }

    /// Consume one byte of child output.
    pub fn feed_byte(&mut self, b: u8)
        requires
            old(self).wf(),
        ensures
            final(self).wf(),
            final(self)@ == step(old(self)@, b),
    {
        if b == 0x08 || b == 0x7f {
            if self.col > 0 {
                self.transcript.pop();
                self.col = self.col - 1;
            }
        } else {
            self.transcript.push(b);
            proof {
                broadcast use vstd::std_specs::vec::axiom_spec_len;

                assert(self.transcript@.drop_last() =~= old(self)@);
                lemma_rows_of_le_len(self.transcript@);
                lemma_col_of_le_len(self.transcript@);
                assert(self.transcript.len() == self.transcript@.len());
            }
            if b == NEWLINE {
                self.row = self.row + 1;
                self.col = 0;
            } else {
                self.col = self.col + 1;
            }
        }
    }

    /// Consume a chunk of freshly read child output, byte by byte.
    pub fn feed(&mut self, bytes: &[u8])
        requires
            old(self).wf(),
        ensures
            final(self).wf(),
            final(self)@ == feed_spec(old(self)@, bytes@),
    {
        let ghost orig: ScreenBuffer = *self;
        let n = bytes.len();
        let mut i: usize = 0;
        while i < n
            invariant
                self.wf(),
                i <= n,
                n == bytes@.len(),
                self@ == feed_spec(orig@, bytes@.take(i as int)),
            decreases n - i,
        {
            let b = *vstd::slice::slice_index_get(bytes, i);
            proof {
                lemma_feed_spec_snoc(orig@, bytes@.take(i as int), bytes@[i as int]);
                assert(bytes@.take(i as int).push(bytes@[i as int]) =~= bytes@.take(
                    i as int + 1,
                ));
            }
            self.feed_byte(b);
            i = i + 1;
        }
        proof {
            assert(bytes@.take(n as int) =~= bytes@);
        }
    }

    /// The cursor position as (row, column), both zero-based.
    pub fn cursor(&self) -> (r: (usize, usize))
        requires
            self.wf(),
        ensures
            r.0 == rows_of(self@),
            r.1 == col_of(self@),
    {
        (self.row, self.col)
    }

    /// The raw transcript bytes, for a host that wants them undecoded.
    pub fn transcript(&self) -> (r: &Vec<u8>)
        ensures
            r@ == self@,
    {
        &self.transcript
    }

    /// The transcript decoded as text for the host to paint: the decoded
    /// characters when the transcript is valid UTF-8, and a fixed visible
    /// marker otherwise — invalid bytes are never dropped silently.
    pub fn render_text(&self) -> (r: String)
        ensures
            vstd::utf8::valid_utf8(self@) ==> r@ == vstd::utf8::decode_utf8(self@),
            !vstd::utf8::valid_utf8(self@) ==> r@ == "<Invalid UTF-8>"@,
    {
        proof {
            broadcast use vstd::string::to_string_from_display_ensures_for_str;

        }
        match utf8_decode(self.transcript.as_slice()) {
            Some(s) => s,
            None => "<Invalid UTF-8>".to_string(),
        }
    }
}

/// Relies on std::str::from_utf8: it succeeds exactly when the bytes are
/// valid UTF-8 (vstd's model of validity), and then returns their decoding.
#[verifier::external_body]
fn utf8_decode(b: &[u8]) -> (r: Option<String>)
    ensures
        r is Some <==> vstd::utf8::valid_utf8(b@),
        r matches Some(s) ==> s@ == vstd::utf8::decode_utf8(b@),
{
    match std::str::from_utf8(b) {
        Ok(s) => Some(s.to_string()),
        Err(_) => None,
    }
}

} // verus!
