//! The list of the models that a server offers.

use vstd::prelude::*;

use crate::backend::LLMBackend;
use crate::json;
use crate::time;

verus! {

/// The answer to a request for the models.
#[derive(Debug)]
pub struct MistralRsModelListResponse {
    pub data: Vec<MistralRsModelData>,
}

/// One model; `created` is a Unix timestamp in seconds.
#[derive(Debug)]
pub struct MistralRsModelData {
    pub id: String,
    pub created: Option<i64>,
    pub extra: serde_json::Value,
}

/// The instant of a timestamp, in seconds since the Unix epoch. A timestamp that is absent
/// or that no `chrono::DateTime` can stand for gives the epoch itself.
pub open spec fn instant_or_epoch(created: Option<i64>) -> i64 {
    match created {
        Some(seconds) => if time::FIRST_SECOND <= seconds <= time::LAST_SECOND {
            seconds
        } else {
            0
        },
        None => 0,
    }
}

impl MistralRsModelData {
    pub fn get_id(&self) -> (id: String)
        ensures
            id == self.id,
    {
        self.id.clone()
    }

    /// When the model was made, in seconds since the Unix epoch.
    pub fn get_created_at(&self) -> (instant: i64)
        ensures
            instant == instant_or_epoch(self.created),
    {
        match self.created {
            Some(seconds) => match time::instant(seconds) {
                Some(instant) => instant,
                None => 0,
            },
            None => 0,
        }
    }

    /// What else the server says of the model.
    pub fn get_raw(&self) -> (raw: serde_json::Value)
        ensures
            raw == self.extra,
    {
        json::copied(&self.extra)
    }

    fn duplicate(&self) -> (copy: MistralRsModelData)
        ensures
            copy == *self,
    {
        MistralRsModelData {
            id: self.id.clone(),
            created: self.created,
            extra: json::copied(&self.extra),
        }
    }
}

impl MistralRsModelListResponse {
    /// The names of the models, in the order of the list.
    pub fn get_models(&self) -> (names: Vec<String>)
        ensures
            names@ == self.data@.map_values(|model: MistralRsModelData| model.id),
    {
        let mut names: Vec<String> = Vec::new();
        let mut i: usize = 0;
        while i < self.data.len()
            invariant
                i <= self.data@.len(),
                names@.len() == i,
                forall|j: int| 0 <= j < i ==> #[trigger] names@[j] == self.data@[j].id,
            decreases self.data@.len() - i,
        {
            names.push(self.data[i].id.clone());
            i += 1;
        }
        proof {
            assert(names@ =~= self.data@.map_values(|model: MistralRsModelData| model.id));
        }
        names
    }

    /// The models, in the order of the list.
    pub fn get_models_raw(&self) -> (models: Vec<MistralRsModelData>)
        ensures
            models@ == self.data@,
    {
        let mut models: Vec<MistralRsModelData> = Vec::new();
        let mut i: usize = 0;
        while i < self.data.len()
            invariant
                i <= self.data@.len(),
                models@.len() == i,
                forall|j: int| 0 <= j < i ==> #[trigger] models@[j] == self.data@[j],
            decreases self.data@.len() - i,
        {
            models.push(self.data[i].duplicate());
            i += 1;
        }
        proof {
            assert(models@ =~= self.data@);
        }
        models
    }

    pub fn get_backend(&self) -> (backend: LLMBackend)
        ensures
            backend == LLMBackend::MistralRs,
    {
        LLMBackend::MistralRs
    }
}

} // verus!
