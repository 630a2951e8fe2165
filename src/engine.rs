use vstd::prelude::*;
use vstd::string::*;

use tokenizers::Tokenizer;

use crate::error::GptError;
use crate::model::{prompt_template, Family, GeneratorModel};
use crate::tokenizer::encode_text;
use crate::segment::{split_think, think_split};
use crate::stream::{
    empty_stream, flush, flush_decodes, or_empty, push_decodes, push_step, text_decoder,
    StreamState, TokenOutputStream,
};

verus! {

/// A forward pass as the engine sees it.
pub struct RequestView {
    pub input: Seq<u32>,
    pub position: int,
    pub recent: Option<Seq<u32>>,
}

/// A forward pass that the engine asks for: feed `input`, whose first token stands at
/// `position` in the running context, and sample one token from the scores. While
/// sampling, `recent` holds the tokens whose scores the repeat penalty lowers.
pub struct ForwardRequest {
    pub input: Vec<u32>,
    pub position: usize,
    pub recent: Option<Vec<u32>>,
}

impl View for ForwardRequest {
    type V = RequestView;

    open spec fn view(&self) -> RequestView {
        RequestView {
            input: self.input@,
            position: self.position as int,
            recent: match self.recent {
                Some(v) => Some(v@),
                None => None,
            },
        }
    }
}

pub open spec fn request_view(r: Option<ForwardRequest>) -> Option<RequestView> {
    match r {
        Some(q) => Some(q@),
        None => None,
    }
}

/// The state of one generation run.
pub struct GenState {
    /// Prompt tokens.
    pub prompt: Seq<u32>,
    /// Feed the prompt one token at a time rather than in one pass.
    pub split_prompt: bool,
    /// Most tokens sampled after the first.
    pub budget: nat,
    /// How many of the latest tokens the repeat penalty looks at.
    pub repeat_last_n: nat,
    pub eos_token: u32,
    /// Tokens generated so far, the first one included.
    pub tokens: Seq<u32>,
    /// Prompt passes answered so far.
    pub ingested: nat,
    /// Token sampled by the latest prompt pass.
    pub last: u32,
    /// Tokens sampled after the first.
    pub sampled: nat,
    /// The end-of-sequence token has been sampled.
    pub stopped: bool,
    /// Text handed out so far.
    pub text: Seq<char>,
    pub stream: StreamState,
    pub tokenizer: Tokenizer,
}

/// The state at the start of a run.
pub open spec fn initial(
    prompt: Seq<u32>,
    sample_len: nat,
    repeat_last_n: nat,
    eos_token: u32,
    split_prompt: bool,
    tokenizer: Tokenizer,
) -> GenState {
    GenState {
        prompt,
        split_prompt,
        budget: sample_budget(sample_len),
        repeat_last_n,
        eos_token,
        tokens: Seq::empty(),
        ingested: 0,
        last: 0,
        sampled: 0,
        stopped: false,
        text: Seq::empty(),
        stream: empty_stream(),
        tokenizer,
    }
}

/// Number of prompt passes: one per prompt token when split, else one.
pub open spec fn prompt_passes(s: GenState) -> nat {
    if s.split_prompt {
        s.prompt.len()
    } else {
        1
    }
}

/// The latest `n` tokens, or all of them where there are fewer.
pub open spec fn recent_tokens(tokens: Seq<u32>, n: nat) -> Seq<u32> {
    if tokens.len() <= n {
        tokens
    } else {
        tokens.skip(tokens.len() - n)
    }
}

/// The forward pass owed in this state, if any.
pub open spec fn request_due(s: GenState) -> Option<RequestView> {
    if s.tokens.len() == 0 {
        if s.ingested < prompt_passes(s) {
            if s.split_prompt {
                Some(
                    RequestView {
                        input: seq![s.prompt[s.ingested as int]],
                        position: s.ingested as int,
                        recent: None,
                    },
                )
            } else {
                Some(RequestView { input: s.prompt, position: 0, recent: None })
            }
        } else {
            None
        }
    } else if !s.stopped && s.sampled < s.budget {
        Some(
            RequestView {
                input: seq![s.tokens.last()],
                position: (s.prompt.len() + s.sampled) as int,
                recent: Some(recent_tokens(s.tokens, s.repeat_last_n)),
            },
        )
    } else {
        None
    }
}

/// A generated token joins the sequence and the stream; what the stream hands out is
/// added to the text.
pub open spec fn take_token(s: GenState, token: u32) -> GenState {
    let (frag, stream) = push_step(text_decoder(s.tokenizer), s.stream, token);
    GenState { tokens: s.tokens.push(token), text: s.text + or_empty(frag), stream, ..s }
}

/// The prompt has been fed but its token not yet taken.
pub open spec fn first_pending(s: GenState) -> bool {
    s.tokens.len() == 0 && s.ingested >= prompt_passes(s)
}

/// Takes the first token once the prompt has been fed; the run stops there if it is the
/// end-of-sequence token.
pub open spec fn settle(s: GenState) -> GenState {
    if first_pending(s) {
        GenState { stopped: s.last == s.eos_token, ..take_token(s, s.last) }
    } else {
        s
    }
}

pub open spec fn settle_decodes(s: GenState) -> bool {
    first_pending(s) ==> push_decodes(s.tokenizer, s.stream, s.last)
}

/// The state once the token sampled from the pass due has come back.
pub open spec fn accepted(s: GenState, token: u32) -> GenState {
    if s.tokens.len() == 0 {
        GenState { last: token, ingested: s.ingested + 1, ..s }
    } else {
        GenState { sampled: s.sampled + 1, stopped: token == s.eos_token, ..take_token(s, token) }
    }
}

pub open spec fn accept_decodes(s: GenState, token: u32) -> bool {
    s.tokens.len() > 0 ==> push_decodes(s.tokenizer, s.stream, token)
}

/// Nothing is left to feed or sample.
pub open spec fn is_finished(s: GenState) -> bool {
    s.tokens.len() > 0 && request_due(s) is None
}

/// The (thinking, answer) pair of a finished run: its text with the stream's rest,
/// split at the closing reasoning marker.
pub open spec fn outcome(s: GenState) -> (Seq<char>, Seq<char>) {
    think_split(s.text + or_empty(flush(text_decoder(s.tokenizer), s.stream)))
}

/// A run in which the passes due are answered with `samples`, in order, until nothing
/// is due or the samples run out.
pub open spec fn drive(s: GenState, samples: Seq<u32>) -> GenState
    decreases samples.len(),
{
    let t = settle(s);
    if samples.len() == 0 || request_due(t) is None {
        t
    } else {
        drive(accepted(t, samples[0]), samples.drop_first())
    }
}

/// The generation engine: prompt ingestion, then one sampled token at a time until the
/// budget is spent or the end-of-sequence token comes. The forward passes and the
/// sampling are done by the caller, who answers each request with the sampled token.
pub struct Generation {
    prompt: Vec<u32>,
    split_prompt: bool,
    budget: usize,
    repeat_last_n: usize,
    eos_token: u32,
    all_tokens: Vec<u32>,
    ingested: usize,
    last: u32,
    sampled: usize,
    stopped: bool,
    text: String,
    tos: TokenOutputStream,
}

impl View for Generation {
    type V = GenState;

    closed spec fn view(&self) -> GenState {
        GenState {
            prompt: self.prompt@,
            split_prompt: self.split_prompt,
            budget: self.budget as nat,
            repeat_last_n: self.repeat_last_n as nat,
            eos_token: self.eos_token,
            tokens: self.all_tokens@,
            ingested: self.ingested as nat,
            last: self.last,
            sampled: self.sampled as nat,
            stopped: self.stopped,
            text: self.text@,
            stream: self.tos@,
            tokenizer: self.tos.spec_tokenizer(),
        }
    }
}

impl Generation {
    pub closed spec fn wf(&self) -> bool {
        &&& self.tos@.wf()
        &&& self.tos@.tokens == self.all_tokens@
        &&& self.prompt@.len() + self.budget < usize::MAX
        &&& self.ingested <= prompt_passes(self@)
        &&& self.sampled <= self.budget
        &&& self.all_tokens@.len() == 0 ==> self.sampled == 0 && !self.stopped
        &&& self.all_tokens@.len() > 0 ==> self.all_tokens@.len() == self.sampled + 1
            && self.ingested == prompt_passes(self@)
    }

    /// Starts a run on the prompt's tokens: at most `sample_len` tokens come out, the
    /// first from the prompt.
    pub fn new(
        prompt: Vec<u32>,
        sample_len: usize,
        repeat_last_n: usize,
        eos_token: u32,
        split_prompt: bool,
        tokenizer: Tokenizer,
    ) -> (r: Self)
        requires
            prompt@.len() + sample_len < usize::MAX,
        ensures
            r.wf(),
            r@ == initial(
                prompt@,
                sample_len as nat,
                repeat_last_n as nat,
                eos_token,
                split_prompt,
                tokenizer,
            ),
    {
        let budget = sample_len.saturating_sub(1);
        let r = Generation {
            prompt,
            split_prompt,
            budget,
            repeat_last_n,
            eos_token,
            all_tokens: Vec::new(),
            ingested: 0,
            last: 0,
            sampled: 0,
            stopped: false,
            text: String::new(),
            tos: TokenOutputStream::new(tokenizer),
        };
        assert(r@.tokens =~= Seq::<u32>::empty());
        assert(r@.text =~= Seq::<char>::empty());
        r
    }

    fn take(&mut self, token: u32) -> (r: Result<(), GptError>)
        requires
            old(self).tos@.wf(),
            old(self).tos@.tokens == old(self).all_tokens@,
            old(self).all_tokens@.len() < usize::MAX,
        ensures
            r is Ok <==> push_decodes(old(self)@.tokenizer, old(self)@.stream, token),
            r is Ok ==> final(self)@ == take_token(old(self)@, token),
            r is Ok ==> final(self).tos@.wf(),
            r is Ok ==> final(self).tos@.tokens == final(self).all_tokens@,
            final(self).prompt == old(self).prompt,
            final(self).split_prompt == old(self).split_prompt,
            final(self).budget == old(self).budget,
            final(self).repeat_last_n == old(self).repeat_last_n,
            final(self).eos_token == old(self).eos_token,
            final(self).ingested == old(self).ingested,
            final(self).last == old(self).last,
            final(self).sampled == old(self).sampled,
            final(self).stopped == old(self).stopped,
            r is Ok ==> final(self).all_tokens@ == old(self).all_tokens@.push(token),
    {
        let fragment = self.tos.next_token(token);
        match fragment {
            Ok(f) => {
                self.all_tokens.push(token);
                match f {
                    Some(t) => self.text.append(t.as_str()),
                    None => {
                        assert(self.text@ =~= self.text@ + Seq::<char>::empty());
                    },
                }
                Ok(())
            },
            Err(e) => Err(e),
        }
    }
    fn recent(&self) -> (r: Vec<u32>)
        ensures
            r@ == recent_tokens(self.all_tokens@, self.repeat_last_n as nat),
    {
        let n = self.all_tokens.len();
        let begin = n.saturating_sub(self.repeat_last_n);
        let mut r: Vec<u32> = Vec::new();
        let mut i: usize = begin;
        while i < n
            invariant
                begin <= i <= n,
                n == self.all_tokens@.len(),
                r@ == self.all_tokens@.subrange(begin as int, i as int),
            decreases n - i,
        {
            r.push(self.all_tokens[i]);
            i = i + 1;
            assert(r@ =~= self.all_tokens@.subrange(begin as int, i as int));
        }
        assert(r@ =~= recent_tokens(self.all_tokens@, self.repeat_last_n as nat));
        r
    }

    /// The forward pass due next, or `None` once the run is over. When the prompt has
    /// been fed, this first takes the token that the prompt gave.
    pub fn next_request(&mut self) -> (r: Result<Option<ForwardRequest>, GptError>)
        requires
            old(self).wf(),
        ensures
            r is Ok <==> settle_decodes(old(self)@),
            r is Ok ==> final(self).wf() && final(self)@ == settle(old(self)@),
            r is Ok ==> request_view(r->Ok_0) == request_due(settle(old(self)@)),
    {
        if self.all_tokens.len() == 0 {
            if self.split_prompt {
                if self.ingested < self.prompt.len() {
                    let input = vec![self.prompt[self.ingested]];
                    assert(input@ =~= seq![self.prompt@[self.ingested as int]]);
                    return Ok(Some(ForwardRequest { input, position: self.ingested, recent: None }));
                }
            } else if self.ingested == 0 {
                let input = self.prompt.clone();
                return Ok(Some(ForwardRequest { input, position: 0, recent: None }));
            }
            let first = self.last;
            self.take(first)?;
            self.stopped = first == self.eos_token;
        }
        if !self.stopped && self.sampled < self.budget {
            let n = self.all_tokens.len();
            let input = vec![self.all_tokens[n - 1]];
            assert(input@ =~= seq![self.all_tokens@.last()]);
            let recent = self.recent();
            Ok(Some(ForwardRequest { input, position: self.prompt.len() + self.sampled, recent: Some(recent) }))
        } else {
            Ok(None)
        }
    }

    /// Takes the token sampled from the pass that `next_request` asked for.
    pub fn accept(&mut self, token: u32) -> (r: Result<(), GptError>)
        requires
            old(self).wf(),
            request_due(old(self)@) is Some,
        ensures
            r is Ok <==> accept_decodes(old(self)@, token),
            r is Ok ==> final(self).wf() && final(self)@ == accepted(old(self)@, token),
    {
        if self.all_tokens.len() == 0 {
            self.last = token;
            self.ingested = self.ingested + 1;
            Ok(())
        } else {
            self.take(token)?;
            self.sampled = self.sampled + 1;
            self.stopped = token == self.eos_token;
            Ok(())
        }
    }

    /// Ends a finished run: hands out the rest of the stream and splits the text into
    /// its reasoning part and its answer.
    pub fn finish(self) -> (r: Result<(String, String), GptError>)
        requires
            self.wf(),
            is_finished(self@),
        ensures
            r is Ok <==> flush_decodes(self@.tokenizer, self@.stream),
            r is Ok ==> (r->Ok_0.0@, r->Ok_0.1@) == outcome(self@),
    {
        let rest = self.tos.decode_rest()?;
        let mut text = self.text;
        match rest {
            Some(t) => text.append(t.as_str()),
            None => {
                assert(text@ =~= text@ + Seq::<char>::empty());
            },
        }
        Ok(split_think(text.as_str()))
    }

    /// The text handed out so far.
    pub fn text(&self) -> (r: &str)
        ensures
            r@ == self@.text,
    {
        self.text.as_str()
    }

    /// Tokens generated so far, the first one included.
    pub fn generated(&self) -> (r: usize)
        requires
            self.wf(),
        ensures
            r == self@.tokens.len(),
    {
        self.all_tokens.len()
    }

    /// Tokens sampled after the first.
    pub fn sampled(&self) -> (r: usize)
        ensures
            r == self@.sampled,
    {
        self.sampled
    }

    /// Tokens generated so far, the first one included.
    pub fn tokens(&self) -> (r: &Vec<u32>)
        ensures
            r@ == self@.tokens,
    {
        &self.all_tokens
    }
}

/// Tokens kept free at the end of a fixed context window.
pub const CONTEXT_MARGIN: usize = 10;

/// Room for prompt tokens in a window of `window` tokens when `to_sample` more are to come.
pub open spec fn prompt_room(to_sample: nat, window: nat) -> nat {
    if window >= to_sample + CONTEXT_MARGIN {
        (window - to_sample - CONTEXT_MARGIN) as nat
    } else {
        0
    }
}

/// The prompt with its oldest tokens dropped until it fits the window with the
/// tokens still to be sampled and the margin; unchanged where no window is fixed.
pub open spec fn fitted(tokens: Seq<u32>, to_sample: nat, window: Option<nat>) -> Seq<u32> {
    match window {
        Some(w) => if tokens.len() > prompt_room(to_sample, w) {
            tokens.skip(tokens.len() - prompt_room(to_sample, w))
        } else {
            tokens
        },
        None => tokens,
    }
}

pub open spec fn window_nat(w: Option<usize>) -> Option<nat> {
    match w {
        Some(n) => Some(n as nat),
        None => None,
    }
}

/// Drops the oldest prompt tokens so that the prompt and the `to_sample` tokens to come
/// fit the context window, less the margin.
pub fn fit_context(tokens: Vec<u32>, to_sample: usize, window: Option<usize>) -> (r: Vec<u32>)
    ensures
        r@ == fitted(tokens@, to_sample as nat, window_nat(window)),
{
    match window {
        Some(w) => {
            let room = w.saturating_sub(to_sample).saturating_sub(CONTEXT_MARGIN);
            let n = tokens.len();
            if n > room {
                let mut r: Vec<u32> = Vec::new();
                let mut i: usize = n - room;
                while i < n
                    invariant
                        room < n,
                        n - room <= i <= n,
                        n == tokens@.len(),
                        r@ == tokens@.subrange(n - room, i as int),
                    decreases n - i,
                {
                    r.push(tokens[i]);
                    i = i + 1;
                    assert(r@ =~= tokens@.subrange(n - room, i as int));
                }
                assert(r@ =~= tokens@.skip(n - room));
                r
            } else {
                tokens
            }
        },
        None => tokens,
    }
}

/// The text fed to the model: the prompt as given, or wrapped in its template.
pub open spec fn prompt_text(model: GeneratorModel, prompt: Seq<char>, disable_thinking: bool, raw_prompt: bool) -> Seq<char> {
    if raw_prompt {
        prompt
    } else {
        prompt_template(model.family(), prompt, disable_thinking)
    }
}

pub open spec fn model_window(model: GeneratorModel) -> Option<nat> {
    if model.family() == Family::DeepseekLlama {
        Some(4096)
    } else {
        None
    }
}

/// Tokens sampled after the first when `sample_len` tokens are asked for.
pub open spec fn sample_budget(sample_len: nat) -> nat {
    if sample_len > 0 {
        (sample_len - 1) as nat
    } else {
        0
    }
}

/// The encoded prompt fitted to the model's context window, `sample_len` tokens to come.
pub fn fit_prompt(model: GeneratorModel, ids: Vec<u32>, sample_len: usize) -> (r: Vec<u32>)
    ensures
        r@ == fitted(ids@, sample_budget(sample_len as nat), model_window(model)),
{
    let window = model.context_window();
    fit_context(ids, sample_len.saturating_sub(1), window)
}

/// The prompt text for the model: the prompt as given, or wrapped in its template.
pub fn prompt_input(model: GeneratorModel, prompt: &str, disable_thinking: bool, raw_prompt: bool) -> (r: String)
    ensures
        r@ == prompt_text(model, prompt@, disable_thinking, raw_prompt),
{
    if raw_prompt {
        prompt.to_owned()
    } else {
        model.format_prompt(prompt, disable_thinking)
    }
}

/// The prompt's tokens as a run feeds them: the prompt text encoded, then fitted to the
/// model's context window for `sample_len` tokens to come. What the tokenizer gives is
/// not stated; `fit_prompt` says what is made of it.
pub fn prompt_tokens(
    model: GeneratorModel,
    tokenizer: &Tokenizer,
    prompt: &str,
    disable_thinking: bool,
    raw_prompt: bool,
    sample_len: usize,
) -> (r: Result<Vec<u32>, GptError>)
    ensures
        r is Ok ==> exists|ids: Seq<u32>|
            r->Ok_0@ == fitted(ids, sample_budget(sample_len as nat), model_window(model)),
{
    let text = prompt_input(model, prompt, disable_thinking, raw_prompt);
    match encode_text(tokenizer, text.as_str()) {
        Ok(ids) => {
            let ghost encoded = ids@;
            let r = fit_prompt(model, ids, sample_len);
            assert(r@ == fitted(encoded, sample_budget(sample_len as nat), model_window(model)));
            Ok(r)
        },
        Err(m) => Err(GptError::Tokenizer(m)),
    }
}

/// How a token is drawn from the scores: the best one, or at random among all of them,
/// the `k` best, the smallest set of best ones whose probability reaches `p`, or the
/// latter within the `k` best.
#[derive(Clone, Copy, Debug, PartialEq, Eq, Structural)]
pub enum SamplingKind {
    ArgMax,
    All,
    TopK(usize),
    TopP,
    TopKThenTopP(usize),
}

/// The sampling rule: greedy where the temperature is not positive, else restricted by
/// `top_k` and `top_p` where they are given.
pub fn sampling_kind(positive_temperature: bool, top_k: Option<usize>, has_top_p: bool) -> (r: SamplingKind)
    ensures
        r == (if !positive_temperature {
            SamplingKind::ArgMax
        } else {
            match (top_k, has_top_p) {
                (None, false) => SamplingKind::All,
                (Some(k), false) => SamplingKind::TopK(k),
                (None, true) => SamplingKind::TopP,
                (Some(k), true) => SamplingKind::TopKThenTopP(k),
            }
        }),
{
    if !positive_temperature {
        SamplingKind::ArgMax
    } else {
        match (top_k, has_top_p) {
            (None, false) => SamplingKind::All,
            (Some(k), false) => SamplingKind::TopK(k),
            (None, true) => SamplingKind::TopP,
            (Some(k), true) => SamplingKind::TopKThenTopP(k),
        }
    }
}

/// A run is a function of its inputs: two runs that start from the same state and whose
/// forward passes are answered with the same sampled tokens ask for the same passes, end
/// in the same state and give the same (thinking, answer) pair.
pub proof fn lemma_run_is_deterministic(a: GenState, b: GenState, samples: Seq<u32>)
    requires
        a == b,
    ensures
        request_due(settle(a)) == request_due(settle(b)),
        drive(a, samples) == drive(b, samples),
        outcome(drive(a, samples)) == outcome(drive(b, samples)),
{
}

/// Sampling the end-of-sequence token ends the run, whether it comes from the last
/// prompt pass or from the sampling loop: the token is counted among those generated, no
/// pass is due afterwards, and whatever samples would follow are never used.
pub proof fn lemma_eos_ends_generation(s: GenState, rest: Seq<u32>)
    requires
        s.tokens.len() > 0 || s.ingested + 1 == prompt_passes(s),
        request_due(s) is Some,
    ensures
        settle(accepted(s, s.eos_token)).tokens == s.tokens.push(s.eos_token),
        s.tokens.len() > 0 ==> settle(accepted(s, s.eos_token)).sampled == s.sampled + 1,
        is_finished(settle(accepted(s, s.eos_token))),
        drive(s, seq![s.eos_token] + rest) == settle(accepted(s, s.eos_token)),
{
    let samples = seq![s.eos_token] + rest;
    let t = accepted(s, s.eos_token);
    assert(samples[0] == s.eos_token);
    assert(samples.drop_first() =~= rest);
    assert(settle(s) == s);
    if s.tokens.len() > 0 {
        assert(settle(t) == t);
    } else {
        assert(s.tokens.push(s.eos_token) =~= seq![s.eos_token]);
    }
    let u = settle(t);
    assert(u.tokens.len() > 0);
    assert(request_due(u) is None);
    assert(drive(t, rest) == u);
    assert(drive(s, samples) == drive(t, rest));
}

/// The repeat penalty is scoped to the latest `repeat_last_n` generated tokens: while
/// sampling, the pass due names exactly those, so a token id is penalized exactly when
/// it occurs among them.
pub proof fn lemma_penalty_scope(s: GenState, id: u32)
    requires
        s.tokens.len() > 0,
        request_due(s) is Some,
    ensures
        request_due(s)->Some_0.recent is Some,
        ({
            let w = request_due(s)->Some_0.recent->Some_0;
            let k = if s.tokens.len() <= s.repeat_last_n {
                0
            } else {
                s.tokens.len() - s.repeat_last_n
            };
            &&& w == s.tokens.subrange(k, s.tokens.len() as int)
            &&& w.contains(id) <==> exists|j: int| k <= j < s.tokens.len() && s.tokens[j] == id
        }),
{
    let w = request_due(s)->Some_0.recent->Some_0;
    let k: int = if s.tokens.len() <= s.repeat_last_n {
        0
    } else {
        s.tokens.len() - s.repeat_last_n
    };
    assert(w =~= s.tokens.subrange(k, s.tokens.len() as int));
    if w.contains(id) {
        let i = choose|i: int| 0 <= i < w.len() && w[i] == id;
        assert(s.tokens[k + i] == id);
    }
    if exists|j: int| k <= j < s.tokens.len() && s.tokens[j] == id {
        let j = choose|j: int| k <= j < s.tokens.len() && s.tokens[j] == id;
        assert(w[j - k] == id);
    }
}

/// The counters of a state agree: no more samples than the budget, no more prompt passes
/// than due, and one generated token per sample besides the first.
pub open spec fn consistent(s: GenState) -> bool {
    &&& s.sampled <= s.budget
    &&& s.ingested <= prompt_passes(s)
    &&& s.tokens.len() == 0 ==> s.sampled == 0
    &&& s.tokens.len() > 0 ==> s.tokens.len() == s.sampled + 1
}

/// A run never outruns its budget: from a consistent state, such as the one a run starts
/// in, whatever tokens are sampled, every state reached is consistent, so at most
/// `budget + 1` tokens are generated.
pub proof fn lemma_run_within_budget(s: GenState, samples: Seq<u32>)
    requires
        consistent(s),
    ensures
        consistent(drive(s, samples)),
        drive(s, samples).budget == s.budget,
        drive(s, samples).tokens.len() <= s.budget + 1,
    decreases samples.len(),
{
    let t = settle(s);
    assert(consistent(t));
    if samples.len() > 0 && request_due(t) is Some {
        let u = accepted(t, samples[0]);
        assert(consistent(u));
        lemma_run_within_budget(u, samples.drop_first());
    }
}

/// A run starts consistent.
pub proof fn lemma_initial_consistent(
    prompt: Seq<u32>,
    sample_len: nat,
    repeat_last_n: nat,
    eos_token: u32,
    split_prompt: bool,
    tokenizer: Tokenizer,
)
    ensures
        consistent(initial(prompt, sample_len, repeat_last_n, eos_token, split_prompt, tokenizer)),
{
}

} // verus!
