use vstd::prelude::*;
use vstd::string::*;

use tokenizers::Tokenizer;

use crate::error::GptError;
use crate::tokenizer::{decode_ids, decoding, token_id, vocab_id};
use crate::utils::{alphanumeric, is_alphanumeric};

verus! {

/// The cursor of a streaming decode: the tokens seen so far, and the window
/// `tokens[prev..cur]` whose text has been handed out last.
pub struct StreamState {
    pub tokens: Seq<u32>,
    pub prev: int,
    pub cur: int,
}

impl StreamState {
    pub open spec fn wf(self) -> bool {
        0 <= self.prev <= self.cur <= self.tokens.len()
    }
}

pub open spec fn empty_stream() -> StreamState {
    StreamState { tokens: Seq::empty(), prev: 0, cur: 0 }
}

/// The part of `text` past `prev_text`, when `text` is longer and ends in a letter or a
/// digit: then the word it ends in is taken as complete.
pub open spec fn stable_fragment(prev_text: Seq<char>, text: Seq<char>) -> Option<Seq<char>> {
    if text.len() > prev_text.len() && is_alphanumeric(text.last()) {
        Some(text.skip(prev_text.len() as int))
    } else {
        None
    }
}

/// The part of `text` past `prev_text`, when `text` is longer.
pub open spec fn rest_fragment(prev_text: Seq<char>, text: Seq<char>) -> Option<Seq<char>> {
    if text.len() > prev_text.len() {
        Some(text.skip(prev_text.len() as int))
    } else {
        None
    }
}

/// Text already handed out for the window `tokens[prev..cur]`.
pub open spec fn shown_text(dec: spec_fn(Seq<u32>) -> Seq<char>, s: StreamState) -> Seq<char> {
    if s.tokens.len() == 0 {
        Seq::empty()
    } else {
        dec(s.tokens.subrange(s.prev, s.cur))
    }
}

/// Text of everything from the start of the window on.
pub open spec fn open_text(dec: spec_fn(Seq<u32>) -> Seq<char>, s: StreamState) -> Seq<char> {
    dec(s.tokens.subrange(s.prev, s.tokens.len() as int))
}

/// One token arrives: the fragment handed out, if any, and the next cursor.
pub open spec fn push_step(
    dec: spec_fn(Seq<u32>) -> Seq<char>,
    s: StreamState,
    token: u32,
) -> (Option<Seq<char>>, StreamState) {
    let grown = StreamState { tokens: s.tokens.push(token), ..s };
    match stable_fragment(shown_text(dec, s), open_text(dec, grown)) {
        Some(f) => (Some(f), StreamState { tokens: grown.tokens, prev: s.cur, cur: grown.tokens.len() as int }),
        None => (None, grown),
    }
}

/// The end of the stream: what is left to hand out, without waiting for a word to end.
pub open spec fn flush(dec: spec_fn(Seq<u32>) -> Seq<char>, s: StreamState) -> Option<Seq<char>> {
    rest_fragment(shown_text(dec, s), open_text(dec, s))
}

/// Feeding `ids` one at a time into an empty stream: the fragments handed out, in order,
/// and the cursor at the end.
pub open spec fn replay(dec: spec_fn(Seq<u32>) -> Seq<char>, ids: Seq<u32>) -> (Seq<Seq<char>>, StreamState)
    decreases ids.len(),
{
    if ids.len() == 0 {
        (Seq::empty(), empty_stream())
    } else {
        let (frags, s) = replay(dec, ids.drop_last());
        let (o, t) = push_step(dec, s, ids.last());
        match o {
            Some(f) => (frags.push(f), t),
            None => (frags, t),
        }
    }
}

/// The fragments joined in order.
pub open spec fn joined(frags: Seq<Seq<char>>) -> Seq<char>
    decreases frags.len(),
{
    if frags.len() == 0 {
        Seq::empty()
    } else {
        joined(frags.drop_last()) + frags.last()
    }
}

pub open spec fn or_empty(o: Option<Seq<char>>) -> Seq<char> {
    match o {
        Some(t) => t,
        None => Seq::empty(),
    }
}

pub open spec fn text_view(o: Option<String>) -> Option<Seq<char>> {
    match o {
        Some(s) => Some(s@),
        None => None,
    }
}

/// The decoder of a tokenizer, with a failed decode read as empty text.
pub open spec fn text_decoder(tokenizer: Tokenizer) -> spec_fn(Seq<u32>) -> Seq<char> {
    |ids: Seq<u32>| or_empty(decoding(tokenizer, ids))
}

/// A decoder that maps a concatenation of token sequences to the concatenation of
/// their texts.
pub open spec fn is_concatenative(dec: spec_fn(Seq<u32>) -> Seq<char>) -> bool {
    forall|a: Seq<u32>, b: Seq<u32>| #[trigger] dec(a + b) == dec(a) + dec(b)
}

proof fn lemma_empty_decodes_empty(dec: spec_fn(Seq<u32>) -> Seq<char>)
    requires
        is_concatenative(dec),
    ensures
        dec(Seq::empty()) == Seq::<char>::empty(),
{
    let e = Seq::<u32>::empty();
    assert(e + e =~= e);
    assert(dec(e + e) == dec(e) + dec(e));
    assert(dec(e).len() == 0);
    assert(dec(e) =~= Seq::<char>::empty());
}

proof fn lemma_split_decode(dec: spec_fn(Seq<u32>) -> Seq<char>, ids: Seq<u32>, a: int, b: int, c: int)
    requires
        is_concatenative(dec),
        0 <= a <= b <= c <= ids.len(),
    ensures
        dec(ids.subrange(a, c)) == dec(ids.subrange(a, b)) + dec(ids.subrange(b, c)),
{
    assert(ids.subrange(a, b) + ids.subrange(b, c) =~= ids.subrange(a, c));
    assert(dec(ids.subrange(a, b) + ids.subrange(b, c)) == dec(ids.subrange(a, b)) + dec(
        ids.subrange(b, c),
    ));
}

/// The shape of a replayed stream, and, for a concatenative decoder, the text handed out
/// so far: the decode of the tokens up to the cursor.
proof fn lemma_replay_shape(dec: spec_fn(Seq<u32>) -> Seq<char>, ids: Seq<u32>)
    ensures
        replay(dec, ids).1.wf(),
        replay(dec, ids).1.tokens == ids,
        is_concatenative(dec) ==> joined(replay(dec, ids).0) == dec(
            ids.subrange(0, replay(dec, ids).1.cur),
        ),
    decreases ids.len(),
{
    if ids.len() == 0 {
        if is_concatenative(dec) {
            lemma_empty_decodes_empty(dec);
            assert(ids.subrange(0, 0) =~= Seq::<u32>::empty());
        }
    } else {
        let front = ids.drop_last();
        lemma_replay_shape(dec, front);
        let (frags, st) = replay(dec, front);
        assert(front.push(ids.last()) =~= ids);
        if is_concatenative(dec) {
            let n = ids.len() as int;
            lemma_empty_decodes_empty(dec);
            assert(front.subrange(st.prev, st.cur) =~= ids.subrange(st.prev, st.cur));
            assert(front.subrange(0, st.cur) =~= ids.subrange(0, st.cur));
            if front.len() == 0 {
                assert(ids.subrange(st.prev, st.cur) =~= Seq::<u32>::empty());
            }
            assert(shown_text(dec, st) == dec(ids.subrange(st.prev, st.cur)));
            lemma_split_decode(dec, ids, st.prev, st.cur, n);
            lemma_split_decode(dec, ids, 0, st.cur, n);
            assert(ids.subrange(0, n) =~= ids);
            let grown = StreamState { tokens: st.tokens.push(ids.last()), ..st };
            assert(open_text(dec, grown) == dec(ids.subrange(st.prev, n)));
            let tail = dec(ids.subrange(st.cur, n));
            assert(open_text(dec, grown).skip(shown_text(dec, st).len() as int) =~= tail);
            let (o, t) = push_step(dec, st, ids.last());
            match o {
                Some(f) => {
                    assert(f == tail);
                    assert(frags.push(f).drop_last() =~= frags);
                    assert(joined(frags.push(f)) == joined(frags) + f);
                },
                None => {},
            }
        }
    }
}

/// Nothing is lost: for a decoder that maps concatenated token sequences to concatenated
/// texts, the fragments handed out while the tokens arrive, followed by what the final
/// flush hands out, spell the decode of the whole sequence at once.
pub proof fn lemma_stream_loses_nothing(dec: spec_fn(Seq<u32>) -> Seq<char>, ids: Seq<u32>)
    requires
        is_concatenative(dec),
    ensures
        joined(replay(dec, ids).0) + or_empty(flush(dec, replay(dec, ids).1)) == dec(ids),
{
    lemma_replay_shape(dec, ids);
    lemma_empty_decodes_empty(dec);
    let (frags, st) = replay(dec, ids);
    let n = ids.len() as int;
    if ids.len() == 0 {
        assert(ids.subrange(st.prev, st.cur) =~= Seq::<u32>::empty());
    }
    assert(shown_text(dec, st) == dec(ids.subrange(st.prev, st.cur)));
    lemma_split_decode(dec, ids, st.prev, st.cur, n);
    lemma_split_decode(dec, ids, 0, st.cur, n);
    assert(ids.subrange(0, n) =~= ids);
    let tail = dec(ids.subrange(st.cur, n));
    assert(open_text(dec, st).skip(shown_text(dec, st).len() as int) =~= tail);
    if tail.len() == 0 {
        assert(tail =~= Seq::<char>::empty());
    }
    assert(joined(frags) + or_empty(flush(dec, st)) =~= dec(ids));
}

/// A fragment once handed out stays as it is: the fragments of a sequence are the first
/// fragments of any longer sequence that starts with it.
pub proof fn lemma_fragments_are_final(
    dec: spec_fn(Seq<u32>) -> Seq<char>,
    ids: Seq<u32>,
    more: Seq<u32>,
)
    ensures
        replay(dec, ids).0.len() <= replay(dec, ids + more).0.len(),
        replay(dec, ids + more).0.subrange(0, replay(dec, ids).0.len() as int) == replay(
            dec,
            ids,
        ).0,
    decreases more.len(),
{
    let k = replay(dec, ids).0.len() as int;
    if more.len() == 0 {
        assert(ids + more =~= ids);
        assert(replay(dec, ids).0.subrange(0, k) =~= replay(dec, ids).0);
    } else {
        let shorter = more.drop_last();
        lemma_fragments_are_final(dec, ids, shorter);
        assert((ids + more).drop_last() =~= ids + shorter);
        let before = replay(dec, ids + shorter).0;
        let after = replay(dec, ids + more).0;
        assert(after.subrange(0, k) =~= before.subrange(0, k));
    }
}

/// The decodes that taking `token` performs succeed.
pub open spec fn push_decodes(tokenizer: Tokenizer, s: StreamState, token: u32) -> bool {
    &&& (s.tokens.len() == 0 || decoding(tokenizer, s.tokens.subrange(s.prev, s.cur)) is Some)
    &&& decoding(tokenizer, s.tokens.push(token).subrange(s.prev, s.tokens.len() + 1 as int)) is Some
}

/// The decodes that the final flush performs succeed.
pub open spec fn flush_decodes(tokenizer: Tokenizer, s: StreamState) -> bool {
    &&& (s.tokens.len() == 0 || decoding(tokenizer, s.tokens.subrange(s.prev, s.cur)) is Some)
    &&& decoding(tokenizer, s.tokens.subrange(s.prev, s.tokens.len() as int)) is Some
}

/// Decodes a growing token sequence into fragments that are safe to show at once: a
/// fragment is handed out only when the text has grown and ends in a letter or a digit.
pub struct TokenOutputStream {
    tokenizer: Tokenizer,
    tokens: Vec<u32>,
    prev_index: usize,
    current_index: usize,
}

impl View for TokenOutputStream {
    type V = StreamState;

    closed spec fn view(&self) -> StreamState {
        StreamState {
            tokens: self.tokens@,
            prev: self.prev_index as int,
            cur: self.current_index as int,
        }
    }
}

impl TokenOutputStream {
    pub closed spec fn spec_tokenizer(&self) -> Tokenizer {
        self.tokenizer
    }

    pub open spec fn dec(&self) -> spec_fn(Seq<u32>) -> Seq<char> {
        text_decoder(self.spec_tokenizer())
    }

    /// Decoding of the window already shown succeeds (or no token has come yet).
    pub open spec fn shown_decodes(&self) -> bool {
        self@.tokens.len() == 0 || decoding(
            self.spec_tokenizer(),
            self@.tokens.subrange(self@.prev, self@.cur),
        ) is Some
    }

    pub fn new(tokenizer: Tokenizer) -> (r: Self)
        ensures
            r@ == empty_stream(),
            r.spec_tokenizer() == tokenizer,
    {
        let r = Self { tokenizer, tokens: Vec::new(), prev_index: 0, current_index: 0 };
        assert(r@.tokens =~= Seq::<u32>::empty());
        r
    }

    pub fn into_inner(self) -> (r: Tokenizer)
        ensures
            r == self.spec_tokenizer(),
    {
        self.tokenizer
    }

    pub fn tokenizer(&self) -> (r: &Tokenizer)
        ensures
            *r == self.spec_tokenizer(),
    {
        &self.tokenizer
    }

    fn decode(&self, tokens: &[u32]) -> (r: Result<String, GptError>)
        ensures
            match r {
                Ok(s) => decoding(self.spec_tokenizer(), tokens@) == Some(s@),
                Err(_) => decoding(self.spec_tokenizer(), tokens@) is None,
            },
    {
        match decode_ids(&self.tokenizer, tokens) {
            Ok(s) => Ok(s),
            Err(m) => Err(GptError::Tokenizer(m)),
        }
    }

    fn shown(&self) -> (r: Result<String, GptError>)
        requires
            self@.wf(),
        ensures
            r is Ok <==> self.shown_decodes(),
            r is Ok ==> r->Ok_0@ == shown_text(self.dec(), self@),
    {
        if self.tokens.len() == 0 {
            Ok(String::new())
        } else {
            let tokens = &self.tokens.as_slice()[self.prev_index..self.current_index];
            self.decode(tokens)
        }
    }

    fn rest(&self) -> (r: Result<String, GptError>)
        requires
            self@.wf(),
        ensures
            r is Ok <==> decoding(
                self.spec_tokenizer(),
                self@.tokens.subrange(self@.prev, self@.tokens.len() as int),
            ) is Some,
            r is Ok ==> r->Ok_0@ == open_text(self.dec(), self@),
    {
        let n = self.tokens.len();
        let tokens = &self.tokens.as_slice()[self.prev_index..n];
        self.decode(tokens)
    }

    /// Takes the next token; hands out the text that became safe to show, if any.
    pub fn next_token(&mut self, token: u32) -> (r: Result<Option<String>, GptError>)
        requires
            old(self)@.wf(),
            old(self)@.tokens.len() < usize::MAX,
        ensures
            final(self)@.wf(),
            final(self).spec_tokenizer() == old(self).spec_tokenizer(),
            r is Ok <==> push_decodes(old(self).spec_tokenizer(), old(self)@, token),
            match r {
                Ok(o) => (text_view(o), final(self)@) == push_step(old(self).dec(), old(self)@, token),
                Err(_) => final(self)@.prev == old(self)@.prev && final(self)@.cur == old(self)@.cur,
            },
    {
        let prev_text = self.shown()?;
        self.tokens.push(token);
        let text = self.rest()?;
        let grown = prev_text.as_str().unicode_len();
        let len = text.as_str().unicode_len();
        if len > grown && alphanumeric(text.as_str().get_char(len - 1)) {
            let fragment = text.as_str().substring_char(grown, len).to_owned();
            self.prev_index = self.current_index;
            self.current_index = self.tokens.len();
            Ok(Some(fragment))
        } else {
            Ok(None)
        }
    }

    /// Hands out whatever text is left at the end of the stream.
    pub fn decode_rest(&self) -> (r: Result<Option<String>, GptError>)
        requires
            self@.wf(),
        ensures
            r is Ok <==> flush_decodes(self.spec_tokenizer(), self@),
            r is Ok ==> text_view(r->Ok_0) == flush(self.dec(), self@),
    {
        let prev_text = self.shown()?;
        let text = self.rest()?;
        let shown = prev_text.as_str().unicode_len();
        let len = text.as_str().unicode_len();
        if len > shown {
            Ok(Some(text.as_str().substring_char(shown, len).to_owned()))
        } else {
            Ok(None)
        }
    }

    /// Decodes every token seen so far at once.
    pub fn decode_all(&self) -> (r: Result<String, GptError>)
        ensures
            match r {
                Ok(s) => decoding(self.spec_tokenizer(), self@.tokens) == Some(s@),
                Err(_) => decoding(self.spec_tokenizer(), self@.tokens) is None,
            },
    {
        self.decode(self.tokens.as_slice())
    }

    /// The id of a token of the vocabulary, added tokens included.
    pub fn get_token(&self, token_s: &str) -> (r: Option<u32>)
        ensures
            r == vocab_id(self.spec_tokenizer(), token_s@),
    {
        token_id(&self.tokenizer, token_s)
    }

    /// Forgets every token and starts over.
    pub fn clear(&mut self)
        ensures
            final(self)@ == empty_stream(),
            final(self).spec_tokenizer() == old(self).spec_tokenizer(),
    {
        self.tokens.clear();
        self.prev_index = 0;
        self.current_index = 0;
        assert(self@.tokens =~= Seq::<u32>::empty());
    }
}

} // verus!
