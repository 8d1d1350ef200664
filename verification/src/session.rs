//! The decisions of the generation loop, as a state machine. The caller runs
//! the model: it does what each step asks for and reports what came of it.

use vstd::prelude::*;
use vstd::slice::slice_subrange;

verus! {

/// Where a generation session stands.
#[derive(Clone, Copy, Debug, PartialEq, Eq, Structural)]
pub enum Phase {
    /// No session has begun.
    Idle,
    /// The prompt is encoded; the model has not run on it yet.
    Prefill,
    /// The first token is out; each round produces one more.
    Decoding,
    /// The end-of-sequence token came, or the token budget is used up.
    Completed,
    /// The cancellation signal was seen; cache and history are cleared.
    Interrupted,
    /// The prompt, the model or the tokenizer failed.
    Failed,
}

/// What the caller does next.
#[derive(Clone, Copy, Debug, PartialEq, Eq, Structural)]
pub enum Step {
    /// Run one forward pass on `token` alone, at cache position `position`,
    /// sample the next token from the penalised logits and report it.
    Decode { token: u32, position: usize },
    /// Clear the model's cache, then hand out what the decoder holds back.
    Interrupt,
    /// Hand out what the decoder holds back.
    Finish,
}

/// The fixed settings of a loop.
#[derive(Clone, Copy, Debug)]
pub struct LoopConfig {
    /// The token budget of one session. The first token is always produced.
    pub sample_len: usize,
    /// How many of the latest tokens the repetition penalty looks at.
    pub repeat_last_n: usize,
    /// The token that ends a session.
    pub eos_token: u32,
}

/// A session as a value: its phase, the prompt, the tokens produced so far,
/// and the model's cache position, that is, how many tokens the model holds.
pub struct LoopState {
    pub phase: Phase,
    pub prompt: Seq<u32>,
    pub emitted: Seq<u32>,
    pub position: nat,
}

/// The token history that the model's cache holds: nothing before the first
/// token is out, then the prompt and every produced token but the latest,
/// which the next forward pass will take.
pub open spec fn history(s: LoopState) -> Seq<u32> {
    if s.emitted.len() == 0 {
        Seq::empty()
    } else {
        s.prompt + s.emitted.drop_last()
    }
}

/// The cache position is the length of the token history.
pub open spec fn in_lockstep(s: LoopState) -> bool {
    s.position == history(s).len()
}

/// How many rounds of decoding the budget allows after the first token.
pub open spec fn rounds(c: LoopConfig) -> nat {
    if c.sample_len == 0 {
        0
    } else {
        (c.sample_len - 1) as nat
    }
}

/// What holds of a session in every phase: cache and history are in
/// lockstep, a session under way has a prompt, and the tokens produced stay
/// within the budget.
pub open spec fn valid(s: LoopState, c: LoopConfig) -> bool {
    &&& in_lockstep(s)
    &&& match s.phase {
        Phase::Idle | Phase::Interrupted => s.prompt.len() == 0 && s.emitted.len() == 0,
        Phase::Prefill => s.prompt.len() > 0 && s.emitted.len() == 0,
        Phase::Decoding | Phase::Completed => s.prompt.len() > 0 && 1 <= s.emitted.len() <= 1
            + rounds(c),
        Phase::Failed => true,
    }
}

/// The state before any session.
pub open spec fn idle() -> LoopState {
    LoopState { phase: Phase::Idle, prompt: Seq::empty(), emitted: Seq::empty(), position: 0 }
}

/// A new session on `prompt`: prefill is next, unless the prompt is empty,
/// which fails the session before any forward pass.
pub open spec fn started(prompt: Seq<u32>) -> LoopState {
    LoopState {
        phase: if prompt.len() == 0 {
            Phase::Failed
        } else {
            Phase::Prefill
        },
        prompt,
        emitted: Seq::empty(),
        position: 0,
    }
}

/// After prefill: the model holds the prompt, and `token` is the first one out.
pub open spec fn after_first(s: LoopState, token: u32) -> LoopState {
    LoopState {
        phase: Phase::Decoding,
        prompt: s.prompt,
        emitted: seq![token],
        position: s.prompt.len(),
    }
}

/// The decision at the top of a round, from the state and the cancellation
/// signal as read at that moment: the session is complete when the budget
/// is used up; else it is interrupted when the signal is set, and cache and
/// history are cleared together; else the latest token goes to the model.
pub open spec fn decided(s: LoopState, c: LoopConfig, cancelled: bool) -> (LoopState, Step) {
    if s.emitted.len() > rounds(c) {
        (LoopState { phase: Phase::Completed, ..s }, Step::Finish)
    } else if cancelled {
        (LoopState { phase: Phase::Interrupted, ..idle() }, Step::Interrupt)
    } else {
        (s, Step::Decode { token: s.emitted.last(), position: s.position as usize })
    }
}

/// After a round: the model has taken the latest token, `token` is appended,
/// and the session is complete if `token` ends the sequence.
pub open spec fn accepted(s: LoopState, c: LoopConfig, token: u32) -> LoopState {
    LoopState {
        phase: if token == c.eos_token {
            Phase::Completed
        } else {
            Phase::Decoding
        },
        prompt: s.prompt,
        emitted: s.emitted.push(token),
        position: s.position + 1,
    }
}

/// The session after a failure: everything stays, the phase is `Failed`.
pub open spec fn failed(s: LoopState) -> LoopState {
    LoopState { phase: Phase::Failed, ..s }
}

/// The newest tokens that the repetition penalty looks at: the last
/// `repeat_last_n` produced, or all of them when there are fewer.
pub open spec fn recent(s: LoopState, c: LoopConfig) -> Seq<u32> {
    let from = if s.emitted.len() > c.repeat_last_n {
        s.emitted.len() - c.repeat_last_n
    } else {
        0
    };
    s.emitted.subrange(from, s.emitted.len() as int)
}

/// Cancellation stops the loop: when the signal is set at the top of a
/// round, no further forward pass is asked for and no token is added. The
/// session ends interrupted, with cache position and history cleared
/// together, or complete where the budget was used up already; either way
/// cache and history are in lockstep.
pub proof fn lemma_cancellation_stops(s: LoopState, c: LoopConfig)
    requires
        valid(s, c),
        s.phase == Phase::Decoding,
    ensures
        ({
            let (after, step) = decided(s, c, true);
            &&& !(step is Decode)
            &&& after.phase == Phase::Interrupted || after.phase == Phase::Completed
            &&& after.phase == Phase::Interrupted ==> step == Step::Interrupt
                && after.emitted.len() == 0 && after.position == 0
            &&& after.phase == Phase::Completed ==> step == Step::Finish && after.emitted
                == s.emitted && after.position == s.position
            &&& valid(after, c)
        }),
{
}

/// A signal that is set while a round is under way lets the token of that
/// round through and no other: the round that would follow is not asked for.
pub proof fn lemma_one_token_after_signal(s: LoopState, c: LoopConfig, token: u32)
    requires
        valid(s, c),
        s.phase == Phase::Decoding,
        s.emitted.len() <= rounds(c),
    ensures
        ({
            let next = accepted(s, c, token);
            &&& next.emitted == s.emitted.push(token)
            &&& next.phase == Phase::Decoding ==> !(decided(next, c, true).1 is Decode)
                && decided(next, c, true).0.emitted.len() <= next.emitted.len()
        }),
{
}

/// Every transition keeps a valid session valid: cache position and token
/// history stay in lockstep, and the tokens produced stay within the budget.
pub proof fn lemma_steps_keep_valid(
    s: LoopState,
    c: LoopConfig,
    prompt: Seq<u32>,
    token: u32,
    cancelled: bool,
)
    requires
        valid(s, c),
    ensures
        valid(idle(), c),
        valid(started(prompt), c),
        s.phase == Phase::Prefill ==> valid(after_first(s, token), c),
        s.phase == Phase::Decoding ==> valid(decided(s, c, cancelled).0, c),
        s.phase == Phase::Decoding && s.emitted.len() <= rounds(c) ==> valid(
            accepted(s, c, token),
            c,
        ),
        valid(failed(s), c),
{
}

/// A round is asked for only while the budget lasts and the signal is not
/// set, and it feeds the model the latest token at the cache position, which
/// is the length of the history. The position is taken to fit a machine integer.
pub proof fn lemma_round_feeds_latest(s: LoopState, c: LoopConfig, cancelled: bool)
    requires
        valid(s, c),
        s.phase == Phase::Decoding,
        s.position <= usize::MAX,
    ensures
        decided(s, c, cancelled).1 is Decode <==> !cancelled && s.emitted.len() <= rounds(c),
        decided(s, c, cancelled).1 matches Step::Decode { token, position } ==> token
            == s.emitted.last() && position == history(s).len() && history(s).push(token)
            == s.prompt + s.emitted,
{
}

/// The history only grows while a session decodes: a round adds the token
/// that it fed to the model, and the tokens produced gain the one sampled.
pub proof fn lemma_history_grows(s: LoopState, c: LoopConfig, token: u32)
    requires
        valid(s, c),
        s.phase == Phase::Decoding,
    ensures
        history(accepted(s, c, token)) == history(s).push(s.emitted.last()),
        accepted(s, c, token).emitted == s.emitted.push(token),
        accepted(s, c, token).prompt == s.prompt,
{
    assert(s.emitted =~= s.emitted.drop_last().push(s.emitted.last()));
    assert(s.emitted.push(token).drop_last() =~= s.emitted);
}

/// The state machine of one generation loop.
pub struct GenerationLoop {
    config: LoopConfig,
    phase: Phase,
    /// The prompt, then the tokens produced.
    context: Vec<u32>,
    prompt_len: usize,
    position: usize,
}

impl View for GenerationLoop {
    type V = LoopState;

    closed spec fn view(&self) -> LoopState {
        LoopState {
            phase: self.phase,
            prompt: self.context@.subrange(0, self.prompt_len as int),
            emitted: self.context@.subrange(self.prompt_len as int, self.context@.len() as int),
            position: self.position as nat,
        }
    }
}

impl GenerationLoop {
    /// The settings that the loop was made with.
    pub closed spec fn settings(&self) -> LoopConfig {
        self.config
    }

    /// The representation is sound and the session is valid.
    pub closed spec fn wf(&self) -> bool {
        &&& self.prompt_len <= self.context.len()
        &&& valid(self@, self.config)
    }

    /// A well-formed loop holds a valid session: cache position and token
    /// history are in lockstep, and the tokens produced are within the budget.
    pub proof fn lemma_wf_is_valid(&self)
        requires
            self.wf(),
        ensures
            valid(self@, self.settings()),
    {
    }

    /// An idle loop with the given settings.
    pub fn new(config: LoopConfig) -> (r: Self)
        ensures
            r.wf(),
            r.settings() == config,
            r@ == idle(),
    {
        let r = GenerationLoop {
            config,
            phase: Phase::Idle,
            context: Vec::new(),
            prompt_len: 0,
            position: 0,
        };
        assert(r@.emitted =~= Seq::<u32>::empty());
        r
    }

    /// The settings of the loop.
    pub fn config(&self) -> (c: LoopConfig)
        ensures
            c == self.settings(),
    {
        self.config
    }

    /// Where the session stands.
    pub fn phase(&self) -> (p: Phase)
        ensures
            p == self@.phase,
    {
        self.phase
    }

    /// The model's cache position.
    pub fn position(&self) -> (p: usize)
        ensures
            p == self@.position,
    {
        self.position
    }

    /// Begins a session on an encoded prompt, whatever went before. An
    /// empty prompt fails the session at once.
    pub fn start(&mut self, prompt: Vec<u32>) -> (ok: bool)
        requires
            old(self).wf(),
        ensures
            final(self).wf(),
            final(self).settings() == old(self).settings(),
            final(self)@ == started(prompt@),
            ok <==> prompt@.len() > 0,
    {
        self.prompt_len = prompt.len();
        self.position = 0;
        self.phase = if prompt.len() == 0 {
            Phase::Failed
        } else {
            Phase::Prefill
        };
        self.context = prompt;
        assert(self@.prompt =~= prompt@);
        assert(self@.emitted =~= Seq::<u32>::empty());
        self.prompt_len > 0
    }

    /// The prompt of the session, for the forward pass of prefill.
    pub fn prompt(&self) -> (p: &[u32])
        requires
            self.wf(),
        ensures
            p@ == self@.prompt,
    {
        slice_subrange(self.context.as_slice(), 0, self.prompt_len)
    }

    /// The tokens produced so far.
    pub fn emitted(&self) -> (p: &[u32])
        requires
            self.wf(),
        ensures
            p@ == self@.emitted,
    {
        slice_subrange(self.context.as_slice(), self.prompt_len, self.context.len())
    }

    /// The tokens that the repetition penalty looks at.
    pub fn recent(&self) -> (p: &[u32])
        requires
            self.wf(),
        ensures
            p@ == recent(self@, self.settings()),
    {
        let produced = self.context.len() - self.prompt_len;
        let from = if produced > self.config.repeat_last_n {
            self.context.len() - self.config.repeat_last_n
        } else {
            self.prompt_len
        };
        let p = slice_subrange(self.context.as_slice(), from, self.context.len());
        p
    }

    /// Reports the first token, sampled after the forward pass over the prompt.
    pub fn first_token(&mut self, token: u32)
        requires
            old(self).wf(),
            old(self)@.phase == Phase::Prefill,
        ensures
            final(self).wf(),
            final(self).settings() == old(self).settings(),
            final(self)@ == after_first(old(self)@, token),
    {
        self.context.push(token);
        self.position = self.prompt_len;
        self.phase = Phase::Decoding;
        assert(self@.prompt =~= old(self)@.prompt);
        assert(self@.emitted =~= seq![token]);
    }

    /// Decides the next round from the cancellation signal as just read.
    pub fn next_step(&mut self, cancelled: bool) -> (step: Step)
        requires
            old(self).wf(),
            old(self)@.phase == Phase::Decoding,
        ensures
            final(self).wf(),
            final(self).settings() == old(self).settings(),
            (final(self)@, step) == decided(old(self)@, old(self).settings(), cancelled),
    {
        let produced = self.context.len() - self.prompt_len;
        let rounds = if self.config.sample_len == 0 {
            0
        } else {
            self.config.sample_len - 1
        };
        if produced > rounds {
            self.phase = Phase::Completed;
            Step::Finish
        } else if cancelled {
            self.phase = Phase::Interrupted;
            self.context.clear();
            self.prompt_len = 0;
            self.position = 0;
            assert(self@.emitted =~= Seq::<u32>::empty());
            Step::Interrupt
        } else {
            let token = self.context[self.context.len() - 1];
            Step::Decode { token, position: self.position }
        }
    }

    /// Reports the token sampled in a round. Says whether it ended the session.
    pub fn accept(&mut self, token: u32) -> (done: bool)
        requires
            old(self).wf(),
            old(self)@.phase == Phase::Decoding,
            old(self)@.emitted.len() <= rounds(old(self).settings()),
        ensures
            final(self).wf(),
            final(self).settings() == old(self).settings(),
            final(self)@ == accepted(old(self)@, old(self).settings(), token),
            done <==> token == old(self).settings().eos_token,
    {
        self.context.push(token);
        self.position = self.position + 1;
        let done = token == self.config.eos_token;
        self.phase = if done {
            Phase::Completed
        } else {
            Phase::Decoding
        };
        assert(self@.prompt =~= old(self)@.prompt);
        assert(self@.emitted =~= old(self)@.emitted.push(token));
        done
    }

    /// Records that the model or the tokenizer failed.
    pub fn fail(&mut self)
        requires
            old(self).wf(),
        ensures
            final(self).wf(),
            final(self).settings() == old(self).settings(),
            final(self)@ == failed(old(self)@),
    {
        self.phase = Phase::Failed;
    }

    /// Back to the state before any session. For the caller that clears the
    /// model's cache: cache and history are cleared together.
    pub fn reset(&mut self)
        requires
            old(self).wf(),
        ensures
            final(self).wf(),
            final(self).settings() == old(self).settings(),
            final(self)@ == idle(),
    {
        self.phase = Phase::Idle;
        self.context.clear();
        self.prompt_len = 0;
        self.position = 0;
        assert(self@.emitted =~= Seq::<u32>::empty());
    }
}

} // verus!
