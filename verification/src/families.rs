//! The root collection of API family handles.
use vstd::prelude::*;
use crate::audio::Audio;
use crate::batches::Batches;
use crate::chat::Chat;
use crate::completions::Completions;
use crate::containers::Containers;
use crate::conversations::Conversations;
use crate::embeddings::Embeddings;
use crate::evals::Evals;
use crate::files::Files;
use crate::fine_tuning::FineTuning;
use crate::images::Images;
use crate::models::Models;

verus! {

/// One handle per API family.
#[derive(Clone, Copy, Debug)]
pub struct ResourceFamilies {
    pub conversations: Conversations,
    pub chat: Chat,
    pub completions: Completions,
    pub embeddings: Embeddings,
    pub models: Models,
    pub images: Images,
    pub audio: Audio,
    pub files: Files,
    pub batches: Batches,
    pub fine_tuning: FineTuning,
    pub evals: Evals,
    pub containers: Containers,
}

impl ResourceFamilies {
    pub fn new() -> ResourceFamilies {
        ResourceFamilies {
            conversations: Conversations::new(),
            chat: Chat::new(),
            completions: Completions::new(),
            embeddings: Embeddings::new(),
            models: Models::new(),
            images: Images::new(),
            audio: Audio::new(),
            files: Files::new(),
            batches: Batches::new(),
            fine_tuning: FineTuning::new(),
            evals: Evals::new(),
            containers: Containers::new(),
        }
    }
}

} // verus!
