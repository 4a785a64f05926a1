//! Legacy `/v1/completions`: request checks and the accumulation of a
//! streamed text completion.
use vstd::prelude::*;
use serde_json::Value;
use std::collections::BTreeMap;
use crate::error::{ErrorKind, OpenAIError};
use crate::json::{set_object_flag, with_flag};
use crate::query::opt_view;
use crate::request::{plain, ApiRequest, BodyView, HttpMethod, RequestBody};
use crate::sse::SseFrame;
use crate::text::{push_str, str_eq, trim, trim_spec};

verus! {

/// Legacy text completions. Secondary to the Responses API; kept for callers
/// that still need text-completion semantics.
#[derive(Clone, Copy, Debug)]
pub struct Completions {}

/// Why a create request is refused, from its `stream` flag and whether `best_of` is set.
pub open spec fn create_refusal(stream: Option<bool>, has_best_of: bool) -> Option<Seq<char>> {
    if stream == Some(true) {
        if has_best_of {
            Some(
                "legacy completions does not allow `best_of` with `stream=true`; use non-streamed create or remove `best_of`"@,
            )
        } else {
            Some("legacy completions create() is non-streaming; call stream() instead of setting `stream=true`"@)
        }
    } else {
        None
    }
}

/// A non-streamed create refuses `stream=true`, naming `best_of` when it is set too.
pub fn validate_for_create(stream: Option<bool>, best_of: Option<u32>) -> (r: Result<(), OpenAIError>)
    ensures
        r is Ok <==> create_refusal(stream, best_of is Some) is None,
        r matches Err(e) ==> e.kind == ErrorKind::Validation && e.message@ == create_refusal(
            stream,
            best_of is Some,
        )->Some_0,
{
    if stream == Some(true) {
        if best_of.is_some() {
            return Err(
                OpenAIError::new(
                    ErrorKind::Validation,
                    "legacy completions does not allow `best_of` with `stream=true`; use non-streamed create or remove `best_of`".to_string(),
                ),
            );
        }
        return Err(
            OpenAIError::new(
                ErrorKind::Validation,
                "legacy completions create() is non-streaming; call stream() instead of setting `stream=true`".to_string(),
            ),
        );
    }
    Ok(())
}

/// A stream refuses `best_of`.
pub fn validate_for_stream(best_of: Option<u32>) -> (r: Result<(), OpenAIError>)
    ensures
        r is Ok <==> best_of is None,
        r matches Err(e) ==> e.kind == ErrorKind::Validation && e.message@
            == "legacy completions streaming does not allow `best_of` with `stream=true`"@,
{
    if best_of.is_some() {
        return Err(
            OpenAIError::new(
                ErrorKind::Validation,
                "legacy completions streaming does not allow `best_of` with `stream=true`".to_string(),
            ),
        );
    }
    Ok(())
}

/// The request body: the serialized parameters with `"stream"` set when they form an object.
pub fn completion_request_body(params: Value, stream: bool) -> (r: Value)
    ensures
        with_flag(params, r, "stream"@, stream),
{
    let mut value = params;
    let _ = set_object_flag(&mut value, "stream", stream);
    value
}

impl Completions {
    pub fn new() -> Completions {
        Completions {}
    }

    /// Creates a non-streamed completion. `stream` and `best_of` are the
    /// parameters' fields of those names; `params` the parameters serialized.
    pub fn create(&self, stream: Option<bool>, best_of: Option<u32>, params: Value) -> (r: Result<
        ApiRequest,
        OpenAIError,
    >)
        ensures
            r is Ok <==> create_refusal(stream, best_of is Some) is None,
            r matches Ok(req) ==> req@.body is JsonValue && req@ == plain(
                HttpMethod::Post,
                "/completions"@,
                req@.body,
            ) && with_flag(params, req@.body->JsonValue_0, "stream"@, false),
            r matches Err(e) ==> e.kind == ErrorKind::Validation && e.message@ == create_refusal(
                stream,
                best_of is Some,
            )->Some_0,
    {
        validate_for_create(stream, best_of)?;
        let body = completion_request_body(params, false);
        Ok(ApiRequest::new(HttpMethod::Post, "/completions".to_string(), RequestBody::JsonValue(body)))
    }

    /// Opens a streamed completion; `best_of` is refused.
    pub fn stream(&self, best_of: Option<u32>, params: Value) -> (r: Result<ApiRequest, OpenAIError>)
        ensures
            r is Ok <==> best_of is None,
            r matches Ok(req) ==> req@.body is JsonValue && req@ == plain(
                HttpMethod::Post,
                "/completions"@,
                req@.body,
            ) && with_flag(params, req@.body->JsonValue_0, "stream"@, true),
            r matches Err(e) ==> e.kind == ErrorKind::Validation && e.message@
                == "legacy completions streaming does not allow `best_of` with `stream=true`"@,
    {
        validate_for_stream(best_of)?;
        let body = completion_request_body(params, true);
        Ok(ApiRequest::new(HttpMethod::Post, "/completions".to_string(), RequestBody::JsonValue(body)))
    }
}

/// Typed legacy text-completion object.
#[derive(Clone, Debug)]
pub struct Completion {
    pub id: String,
    pub object: String,
    pub created: i64,
    pub model: Option<String>,
    pub choices: Vec<CompletionChoice>,
    pub usage: Option<Value>,
    pub system_fingerprint: Option<String>,
    pub extra: BTreeMap<String, Value>,
}

/// Choice inside a legacy text completion.
#[derive(Clone, Debug)]
pub struct CompletionChoice {
    pub finish_reason: Option<String>,
    pub index: usize,
    pub logprobs: Option<Value>,
    pub text: String,
    pub extra: BTreeMap<String, Value>,
}

/// A choice being accumulated.
#[derive(Clone, Debug)]
pub struct AccumulatedCompletionChoice {
    pub finish_reason: Option<String>,
    pub logprobs: Option<Value>,
    pub text: String,
}

/// What accumulation tracks of a choice: its finish reason, logprobs and text.
pub struct CompletionChoiceView {
    pub finish_reason: Option<Seq<char>>,
    pub logprobs: Option<Value>,
    pub text: Seq<char>,
}

impl View for AccumulatedCompletionChoice {
    type V = CompletionChoiceView;

    open spec fn view(&self) -> CompletionChoiceView {
        CompletionChoiceView { finish_reason: opt_view(self.finish_reason), logprobs: self.logprobs, text: self.text@ }
    }
}

pub open spec fn completion_choices_view(cs: Seq<AccumulatedCompletionChoice>) -> Seq<CompletionChoiceView> {
    cs.map_values(|c: AccumulatedCompletionChoice| c@)
}

pub open spec fn empty_completion_choice() -> CompletionChoiceView {
    CompletionChoiceView { finish_reason: None, logprobs: None, text: seq![] }
}

pub open spec fn padded_choices(s: Seq<CompletionChoiceView>, n: int) -> Seq<CompletionChoiceView> {
    if s.len() >= n {
        s
    } else {
        s + Seq::new((n - s.len()) as nat, |i: int| empty_completion_choice())
    }
}

/// One streamed choice applied: its text is appended, and its logprobs and
/// finish reason replace the accumulated ones when present.
pub open spec fn step_completion_choice(c: CompletionChoiceView, d: CompletionChoice) -> CompletionChoiceView {
    CompletionChoiceView {
        finish_reason: if d.finish_reason is Some {
            opt_view(d.finish_reason)
        } else {
            c.finish_reason
        },
        logprobs: if d.logprobs is Some {
            d.logprobs
        } else {
            c.logprobs
        },
        text: c.text + d.text@,
    }
}

/// The choices of one streamed completion applied in order.
pub open spec fn step_completion_choices(cs: Seq<CompletionChoiceView>, ds: Seq<CompletionChoice>) -> Seq<
    CompletionChoiceView,
>
    decreases ds.len(),
{
    if ds.len() == 0 {
        cs
    } else {
        let prev = step_completion_choices(cs, ds.drop_last());
        let d = ds.last();
        let grown = padded_choices(prev, d.index + 1);
        grown.update(d.index as int, step_completion_choice(grown[d.index as int], d))
    }
}

fn copy_opt_value(v: &Option<Value>) -> (c: Option<Value>)
    ensures
        c == *v,
{
    match v {
        Some(x) => Some(x.clone()),
        None => None,
    }
}

fn copy_opt_text(t: &Option<String>) -> (c: Option<String>)
    ensures
        c == *t,
{
    match t {
        Some(s) => Some(s.clone()),
        None => None,
    }
}

impl AccumulatedCompletionChoice {
    pub fn new() -> (c: AccumulatedCompletionChoice)
        ensures
            c@ == empty_completion_choice(),
    {
        AccumulatedCompletionChoice { finish_reason: None, logprobs: None, text: String::new() }
    }

    /// Applies one streamed choice.
    pub fn apply(&mut self, d: &CompletionChoice)
        ensures
            final(self)@ == step_completion_choice(old(self)@, *d),
    {
        push_str(&mut self.text, d.text.as_str());
        if d.logprobs.is_some() {
            self.logprobs = copy_opt_value(&d.logprobs);
        }
        match &d.finish_reason {
            Some(f) => {
                self.finish_reason = Some(f.clone());
            },
            None => {},
        }
    }
}

fn ensure_completion_choice(choices: &mut Vec<AccumulatedCompletionChoice>, idx: usize)
    ensures
        completion_choices_view(final(choices)@) == padded_choices(completion_choices_view(old(choices)@), idx + 1),
        final(choices)@.len() > idx,
{
    let ghost start = completion_choices_view(choices@);
    while choices.len() <= idx
        invariant
            choices@.len() >= start.len(),
            choices@.len() <= idx + 1 || choices@.len() == start.len(),
            completion_choices_view(choices@) == padded_choices(start, choices@.len() as int),
        decreases idx + 1 - choices@.len(),
    {
        let ghost before = choices@;
        choices.push(AccumulatedCompletionChoice::new());
        assert(completion_choices_view(choices@) =~= completion_choices_view(before).push(
            empty_completion_choice(),
        ));
        assert(padded_choices(start, choices@.len() as int) =~= padded_choices(start, before.len() as int).push(
            empty_completion_choice(),
        ));
    }
    assert(completion_choices_view(choices@) =~= padded_choices(start, idx + 1));
}

/// Whether some choice of a streamed completion carries a finish reason.
pub open spec fn has_finish(completion: Completion) -> bool {
    exists|i: int| 0 <= i < completion.choices@.len() && (#[trigger] completion.choices@[i]).finish_reason is Some
}

/// The state of accumulating a streamed legacy completion.
pub struct CompletionAccumulator {
    pub id: Option<String>,
    pub object: Option<String>,
    pub created: Option<i64>,
    pub model: Option<String>,
    pub system_fingerprint: Option<String>,
    pub choices: Vec<AccumulatedCompletionChoice>,
    pub usage: Option<Value>,
    pub seen_done: bool,
    pub seen_terminal_chunk: bool,
    pub parsed_completion: bool,
}

/// `after` is `before` with one streamed completion applied: first-seen
/// fields keep their first value, usage follows the latest completion that
/// has one, and the choices are applied in order.
pub open spec fn completion_applied(
    before: CompletionAccumulator,
    after: CompletionAccumulator,
    c: Completion,
) -> bool {
    &&& after.parsed_completion
    &&& after.id == (if before.id is Some {
        before.id
    } else {
        Some(c.id)
    })
    &&& after.object == (if before.object is Some {
        before.object
    } else {
        Some(c.object)
    })
    &&& after.created == (if before.created is Some {
        before.created
    } else {
        Some(c.created)
    })
    &&& after.model == (if before.model is Some {
        before.model
    } else {
        c.model
    })
    &&& after.system_fingerprint == (if before.system_fingerprint is Some {
        before.system_fingerprint
    } else {
        c.system_fingerprint
    })
    &&& after.usage == (if c.usage is Some {
        c.usage
    } else {
        before.usage
    })
    &&& completion_choices_view(after.choices@) == step_completion_choices(
        completion_choices_view(before.choices@),
        c.choices@,
    )
    &&& after.seen_done == before.seen_done
    &&& after.seen_terminal_chunk == (before.seen_terminal_chunk || has_finish(c))
}

/// Why finishing a stream fails, if it does.
pub open spec fn finish_refusal(a: CompletionAccumulator) -> Option<Seq<char>> {
    if !a.seen_done && !a.seen_terminal_chunk {
        Some("legacy completions stream ended without a [DONE] marker or terminal completion"@)
    } else if !a.parsed_completion {
        Some("legacy completions stream ended without any parsed completion payload"@)
    } else {
        None
    }
}

impl CompletionAccumulator {
    pub fn new() -> (a: CompletionAccumulator)
        ensures
            a.id is None && a.object is None && a.created is None && a.model is None,
            a.system_fingerprint is None && a.usage is None && a.choices@.len() == 0,
            !a.seen_done && !a.seen_terminal_chunk && !a.parsed_completion,
    {
        CompletionAccumulator {
            id: None,
            object: None,
            created: None,
            model: None,
            system_fingerprint: None,
            choices: Vec::new(),
            usage: None,
            seen_done: false,
            seen_terminal_chunk: false,
            parsed_completion: false,
        }
    }

    /// Folds one streamed completion into the accumulated one.
    pub fn apply_completion(&mut self, completion: &Completion)
        ensures
            completion_applied(*old(self), *final(self), *completion),
    {
        self.parsed_completion = true;
        if self.id.is_none() {
            self.id = Some(completion.id.clone());
        }
        if self.object.is_none() {
            self.object = Some(completion.object.clone());
        }
        if self.created.is_none() {
            self.created = Some(completion.created);
        }
        if self.model.is_none() {
            self.model = copy_opt_text(&completion.model);
        }
        if self.system_fingerprint.is_none() {
            self.system_fingerprint = copy_opt_text(&completion.system_fingerprint);
        }
        if completion.usage.is_some() {
            self.usage = copy_opt_value(&completion.usage);
        }
        let ghost start = completion_choices_view(self.choices@);
        let ghost fixed = *self;
        let mut i: usize = 0;
        while i < completion.choices.len()
            invariant
                i <= completion.choices@.len(),
                self.parsed_completion,
                self.id == fixed.id && self.object == fixed.object && self.created == fixed.created,
                self.model == fixed.model && self.system_fingerprint == fixed.system_fingerprint,
                self.usage == fixed.usage && self.seen_done == fixed.seen_done,
                completion_choices_view(self.choices@) == step_completion_choices(
                    start,
                    completion.choices@.subrange(0, i as int),
                ),
                self.seen_terminal_chunk == (fixed.seen_terminal_chunk || exists|k: int|
                    0 <= k < i && (#[trigger] completion.choices@[k]).finish_reason is Some),
            decreases completion.choices@.len() - i,
        {
            assert(completion.choices@.subrange(0, i + 1).drop_last() =~= completion.choices@.subrange(0, i as int));
            let choice = &completion.choices[i];
            let idx = choice.index;
            ensure_completion_choice(&mut self.choices, idx);
            let ghost grown = completion_choices_view(self.choices@);
            let entry = &mut self.choices[idx];
            entry.apply(choice);
            assert(completion_choices_view(self.choices@) =~= grown.update(
                idx as int,
                step_completion_choice(grown[idx as int], *choice),
            ));
            if choice.finish_reason.is_some() {
                self.seen_terminal_chunk = true;
            }
            i = i + 1;
        }
        assert(completion.choices@.subrange(0, completion.choices@.len() as int) =~= completion.choices@);
    }

    /// Reads one SSE frame: `[DONE]` (surrounded by any whitespace) marks the
    /// end; any other frame is a completion, `parsed` being what decoding its
    /// data gave.
    pub fn ingest_frame(&mut self, frame: &SseFrame, parsed: Result<Completion, String>) -> (r: Result<
        Option<Completion>,
        OpenAIError,
    >)
        ensures
            trim_spec(frame.data@) == "[DONE]"@ ==> (r matches Ok(None) && *final(self) == (
            CompletionAccumulator { seen_done: true, ..*old(self) })),
            trim_spec(frame.data@) != "[DONE]"@ ==> match parsed {
                Err(detail) => r matches Err(e) && e.kind == ErrorKind::Parse && e.message@
                    == "failed to parse streamed legacy completion: "@ + detail@ && *final(self) == *old(self),
                Ok(c) => r == Ok::<Option<Completion>, OpenAIError>(Some(c)) && completion_applied(
                    *old(self),
                    *final(self),
                    c,
                ),
            },
    {
        if str_eq(trim(frame.data.as_str()), "[DONE]") {
            self.seen_done = true;
            return Ok(None);
        }
        match parsed {
            Err(detail) => Err(
                OpenAIError::with_detail(
                    ErrorKind::Parse,
                    "failed to parse streamed legacy completion: ",
                    detail.as_str(),
                ),
            ),
            Ok(c) => {
                self.apply_completion(&c);
                Ok(Some(c))
            },
        }
    }

    /// The final completion: the accumulated fields, with `text_completion` as
    /// the object when none was seen and choices numbered in order.
    pub fn finish(self) -> (r: Result<Completion, OpenAIError>)
        ensures
            r is Ok <==> finish_refusal(self) is None,
            r matches Err(e) ==> e.kind == ErrorKind::Parse && e.message@ == finish_refusal(self)->Some_0,
            r matches Ok(c) ==> {
                &&& c.id@ == (match self.id {
                    Some(s) => s@,
                    None => Seq::<char>::empty(),
                })
                &&& c.object@ == (match self.object {
                    Some(s) => s@,
                    None => "text_completion"@,
                })
                &&& c.created == (match self.created {
                    Some(t) => t,
                    None => 0,
                })
                &&& c.model == self.model
                &&& c.usage == self.usage
                &&& c.system_fingerprint == self.system_fingerprint
                &&& c.extra@ == Map::<String, Value>::empty()
                &&& c.choices@.len() == self.choices@.len()
                &&& forall|i: int|
                    0 <= i < c.choices@.len() ==> (#[trigger] c.choices@[i]).index == i && c.choices@[i].text
                        == self.choices@[i].text && c.choices@[i].finish_reason == self.choices@[i].finish_reason
                        && c.choices@[i].logprobs == self.choices@[i].logprobs
                        && c.choices@[i].extra@ == Map::<String, Value>::empty()
            },
    {
        if !self.seen_done && !self.seen_terminal_chunk {
            return Err(
                OpenAIError::new(
                    ErrorKind::Parse,
                    "legacy completions stream ended without a [DONE] marker or terminal completion".to_string(),
                ),
            );
        }
        if !self.parsed_completion {
            return Err(
                OpenAIError::new(
                    ErrorKind::Parse,
                    "legacy completions stream ended without any parsed completion payload".to_string(),
                ),
            );
        }
        let ghost accumulated = self.choices@;
        assert(accumulated.len() == self.choices.len());
        let mut rest = self.choices;
        let mut choices: Vec<CompletionChoice> = Vec::new();
        let mut i: usize = 0;
        while rest.len() > 0
            invariant
                accumulated.len() <= usize::MAX,
                i + rest@.len() == accumulated.len(),
                rest@ == accumulated.subrange(i as int, accumulated.len() as int),
                choices@.len() == i,
                forall|k: int|
                    0 <= k < i ==> (#[trigger] choices@[k]).index == k && choices@[k].text == accumulated[k].text
                        && choices@[k].finish_reason == accumulated[k].finish_reason && choices@[k].logprobs
                        == accumulated[k].logprobs && choices@[k].extra@ == Map::<String, Value>::empty(),
            decreases rest@.len(),
        {
            let c = rest.remove(0);
            choices.push(
                CompletionChoice {
                    finish_reason: c.finish_reason,
                    index: i,
                    logprobs: c.logprobs,
                    text: c.text,
                    extra: BTreeMap::new(),
                },
            );
            i = i + 1;
        }
        let id = match self.id {
            Some(s) => s,
            None => String::new(),
        };
        let object = match self.object {
            Some(s) => s,
            None => "text_completion".to_string(),
        };
        let created = match self.created {
            Some(t) => t,
            None => 0,
        };
        Ok(
            Completion {
                id,
                object,
                created,
                model: self.model,
                choices,
                usage: self.usage,
                system_fingerprint: self.system_fingerprint,
                extra: BTreeMap::new(),
            },
        )
    }
}

/// The text of choice `k`, empty when there is no such choice.
pub open spec fn slot_text(cs: Seq<CompletionChoiceView>, k: int) -> Seq<char> {
    if 0 <= k < cs.len() {
        cs[k].text
    } else {
        seq![]
    }
}

/// `start` followed by every text fragment the choices address to `k`, in order.
pub open spec fn text_for(ds: Seq<CompletionChoice>, k: int, start: Seq<char>) -> Seq<char>
    decreases ds.len(),
{
    if ds.len() == 0 {
        start
    } else {
        let prev = text_for(ds.drop_last(), k, start);
        if ds.last().index == k {
            prev + ds.last().text@
        } else {
            prev
        }
    }
}

/// The choices accumulated from a whole stream of completions, starting from none.
pub open spec fn stream_completion_choices(cs: Seq<Completion>) -> Seq<CompletionChoiceView>
    decreases cs.len(),
{
    if cs.len() == 0 {
        seq![]
    } else {
        step_completion_choices(stream_completion_choices(cs.drop_last()), cs.last().choices@)
    }
}

/// Every text fragment of a stream addressed to choice `k`, joined in order.
pub open spec fn stream_text(cs: Seq<Completion>, k: int) -> Seq<char>
    decreases cs.len(),
{
    if cs.len() == 0 {
        seq![]
    } else {
        text_for(cs.last().choices@, k, stream_text(cs.drop_last(), k))
    }
}

proof fn lemma_step_text(cs: Seq<CompletionChoiceView>, ds: Seq<CompletionChoice>, k: int)
    ensures
        slot_text(step_completion_choices(cs, ds), k) == text_for(ds, k, slot_text(cs, k)),
    decreases ds.len(),
{
    if ds.len() > 0 {
        lemma_step_text(cs, ds.drop_last(), k);
        let prev = step_completion_choices(cs, ds.drop_last());
        let d = ds.last();
        let grown = padded_choices(prev, d.index + 1);
        assert(slot_text(grown, k) == slot_text(prev, k));
    }
}

/// Streamed text is the concatenation of its fragments: after any stream of
/// completions, the text of choice `k` is every fragment addressed to `k`,
/// joined in the order they arrived.
pub proof fn law_streamed_text_concatenates(cs: Seq<Completion>, k: int)
    ensures
        slot_text(stream_completion_choices(cs), k) == stream_text(cs, k),
    decreases cs.len(),
{
    if cs.len() > 0 {
        law_streamed_text_concatenates(cs.drop_last(), k);
        lemma_step_text(stream_completion_choices(cs.drop_last()), cs.last().choices@, k);
    }
}

/// Applying streamed completions one by one builds exactly the choices of the stream so far.
pub proof fn law_apply_completion_follows_stream(
    before: CompletionAccumulator,
    after: CompletionAccumulator,
    cs: Seq<Completion>,
    c: Completion,
)
    requires
        completion_choices_view(before.choices@) == stream_completion_choices(cs),
        completion_applied(before, after, c),
    ensures
        completion_choices_view(after.choices@) == stream_completion_choices(cs.push(c)),
{
    assert(cs.push(c).drop_last() =~= cs);
}

/// `states` is a run of the accumulator over `cs`: each state is the one
/// before it with the next streamed completion applied.
pub open spec fn is_completion_run(states: Seq<CompletionAccumulator>, cs: Seq<Completion>) -> bool {
    &&& states.len() == cs.len() + 1
    &&& forall|k: int| 0 <= k < cs.len() ==> completion_applied(#[trigger] states[k], states[k + 1], cs[k])
}

/// A fresh accumulator, as [`CompletionAccumulator::new`] makes it.
pub open spec fn is_fresh_completion(a: CompletionAccumulator) -> bool {
    &&& a.id is None && a.object is None && a.created is None && a.model is None
    &&& a.system_fingerprint is None && a.usage is None && a.choices@.len() == 0
    &&& !a.seen_done && !a.seen_terminal_chunk && !a.parsed_completion
}

/// Accumulating a stream from a fresh state: the choices are those of the
/// whole stream, the id is the first completion's, a payload counts as parsed
/// once any completion came, and the stream counts as terminated exactly when
/// some completion carried a finish reason.
#[verifier::spinoff_prover]
#[verifier::rlimit(60)]
pub proof fn law_completion_stream_run(states: Seq<CompletionAccumulator>, cs: Seq<Completion>)
    requires
        is_completion_run(states, cs),
        is_fresh_completion(states[0]),
    ensures
        completion_choices_view(states.last().choices@) == stream_completion_choices(cs),
        states.last().parsed_completion == (cs.len() > 0),
        states.last().seen_terminal_chunk == exists|k: int| 0 <= k < cs.len() && has_finish(#[trigger] cs[k]),
        cs.len() > 0 ==> states.last().id == Some(cs[0].id),
        !states.last().seen_done,
    decreases cs.len(),
{
    if cs.len() == 0 {
        assert(completion_choices_view(states[0].choices@) =~= Seq::<CompletionChoiceView>::empty());
    } else {
        let n = cs.len() - 1;
        let prefix_states = states.drop_last();
        let prefix = cs.drop_last();
        assert forall|k: int| 0 <= k < prefix.len() implies completion_applied(
            #[trigger] prefix_states[k],
            prefix_states[k + 1],
            prefix[k],
        ) by {
            assert(completion_applied(states[k], states[k + 1], cs[k]));
        }
        law_completion_stream_run(prefix_states, prefix);
        assert(completion_applied(states[n], states[n + 1], cs[n]));
        assert(prefix_states.last() == states[n]);
        assert(states.last() == states[n + 1]);
        if states.last().seen_terminal_chunk {
            if !states[n].seen_terminal_chunk {
                assert(has_finish(cs[n]));
            } else {
                let k = choose|k: int| 0 <= k < prefix.len() && has_finish(#[trigger] prefix[k]);
                assert(cs[k] == prefix[k]);
            }
        } else {
            assert forall|k: int| 0 <= k < cs.len() implies !has_finish(#[trigger] cs[k]) by {
                if k < n {
                    assert(cs[k] == prefix[k]);
                }
            }
        }
        if n > 0 {
            assert(cs[0] == prefix[0]);
        }
    }
}

} // verus!
