//! Canonical generation results, one per response or per stream chunk.

use vstd::prelude::*;
use vstd::string::*;

use crate::request::RequestId;

verus! {

/// Token counts and timings of one generation.
#[derive(Debug, Clone, Copy, PartialEq, Eq, Structural)]
pub struct GenerationStats {
    pub prompt_tokens: usize,
    pub generated_tokens: usize,
    pub total_tokens: usize,
    pub prompt_time_ms: u64,
    pub generation_time_ms: u64,
}

/// `a + b`, or the largest `usize` when the sum does not fit.
pub open spec fn saturating_sum(a: usize, b: usize) -> usize {
    if a + b <= usize::MAX { (a + b) as usize } else { usize::MAX }
}

impl GenerationStats {
    /// Counts as a backend reports them; a total too large for `usize`
    /// stays at its largest value. Timings zero.
    pub fn with_counts(prompt_tokens: usize, generated_tokens: usize) -> (r: GenerationStats)
        ensures
            r.prompt_tokens == prompt_tokens,
            r.generated_tokens == generated_tokens,
            r.total_tokens == saturating_sum(prompt_tokens, generated_tokens),
            r.prompt_time_ms == 0 && r.generation_time_ms == 0,
    {
        let total = if prompt_tokens <= usize::MAX - generated_tokens {
            prompt_tokens + generated_tokens
        } else {
            usize::MAX
        };
        GenerationStats {
            prompt_tokens,
            generated_tokens,
            total_tokens: total,
            prompt_time_ms: 0,
            generation_time_ms: 0,
        }
    }

    /// Counts with their total, timings zero.
    pub fn new(prompt_tokens: usize, generated_tokens: usize) -> (r: GenerationStats)
        requires
            prompt_tokens + generated_tokens <= usize::MAX,
        ensures
            r.prompt_tokens == prompt_tokens,
            r.generated_tokens == generated_tokens,
            r.total_tokens == prompt_tokens + generated_tokens,
            r.prompt_time_ms == 0 && r.generation_time_ms == 0,
    {
        GenerationStats {
            prompt_tokens,
            generated_tokens,
            total_tokens: prompt_tokens + generated_tokens,
            prompt_time_ms: 0,
            generation_time_ms: 0,
        }
    }

    /// The same counts with the given timings in milliseconds.
    pub fn with_timings(self, prompt_time_ms: u64, generation_time_ms: u64) -> (r: GenerationStats)
        ensures
            r == (GenerationStats { prompt_time_ms, generation_time_ms, ..self }),
    {
        GenerationStats { prompt_time_ms, generation_time_ms, ..self }
    }
}

/// A generation result: a whole response, or one chunk of a stream.
#[derive(Debug, Clone)]
pub struct GenerateResponse {
    pub id: RequestId,
    pub model: String,
    pub text: String,
    pub stats: GenerationStats,
    pub finished: bool,
    pub finish_reason: Option<String>,
}

impl GenerateResponse {
    /// An empty, unfinished result for a request.
    pub fn new(id: RequestId, model: String) -> (r: GenerateResponse)
        ensures
            r.id == id,
            r.model@ == model@,
            r.text@.len() == 0,
            r.stats == (GenerationStats {
                prompt_tokens: 0,
                generated_tokens: 0,
                total_tokens: 0,
                prompt_time_ms: 0,
                generation_time_ms: 0,
            }),
            !r.finished,
            r.finish_reason is None,
    {
        GenerateResponse {
            id,
            model,
            text: String::new(),
            stats: GenerationStats::new(0, 0),
            finished: false,
            finish_reason: None,
        }
    }

    /// The same result with its text replaced.
    pub fn with_text(self, text: String) -> (r: GenerateResponse)
        ensures
            r.id == self.id && r.model@ == self.model@ && r.text@ == text@,
            r.stats == self.stats && r.finished == self.finished,
            r.finish_reason == self.finish_reason,
    {
        let mut r = self;
        r.text = text;
        r
    }

    /// The same result with its statistics replaced.
    pub fn with_stats(self, stats: GenerationStats) -> (r: GenerateResponse)
        ensures
            r.id == self.id && r.model@ == self.model@ && r.text@ == self.text@,
            r.stats == stats && r.finished == self.finished,
            r.finish_reason == self.finish_reason,
    {
        let mut r = self;
        r.stats = stats;
        r
    }

    /// The same result marked finished, for the given reason.
    pub fn finish(self, reason: String) -> (r: GenerateResponse)
        ensures
            r.id == self.id && r.model@ == self.model@ && r.text@ == self.text@,
            r.stats == self.stats && r.finished,
            r.finish_reason is Some && r.finish_reason.unwrap()@ == reason@,
    {
        let mut r = self;
        r.finished = true;
        r.finish_reason = Some(reason);
        r
    }
}

} // verus!
