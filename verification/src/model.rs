//! Model metadata as the backend reports it, and the lookup of a model's
//! context length in it.

use vstd::prelude::*;

use crate::text::{ends_with, spec_ends_with};

verus! {

/// Mathematical image of an [`OllamaModelDetails`].
pub ghost struct OllamaModelDetailsView {
    pub parent_model: Seq<char>,
    pub format: Seq<char>,
    pub family: Seq<char>,
    pub parameter_size: Seq<char>,
    pub quantization_level: Seq<char>,
}

/// Descriptive details of one model.
#[derive(Debug)]
pub struct OllamaModelDetails {
    /// The model this one derives from.
    pub parent_model: String,
    /// Storage format of the model.
    pub format: String,
    /// Model family.
    pub family: String,
    /// Parameter count as the backend spells it.
    pub parameter_size: String,
    /// Quantization level.
    pub quantization_level: String,
}

impl DeepView for OllamaModelDetails {
    type V = OllamaModelDetailsView;

    open spec fn deep_view(&self) -> OllamaModelDetailsView {
        OllamaModelDetailsView {
            parent_model: self.parent_model@,
            format: self.format@,
            family: self.family@,
            parameter_size: self.parameter_size@,
            quantization_level: self.quantization_level@,
        }
    }
}

/// Mathematical image of a [`ModelInfoEntry`].
pub ghost struct ModelInfoEntryView {
    pub key: Seq<char>,
    pub numeric: bool,
    pub value: Option<u64>,
}

/// One entry of a model's metadata table: its key, whether the backend
/// sent a number under it, and that number when it fits an unsigned word.
#[derive(Debug)]
pub struct ModelInfoEntry {
    /// The metadata key.
    pub key: String,
    /// Whether the value is a number.
    pub numeric: bool,
    /// The value as an unsigned integer, when it is one.
    pub value: Option<u64>,
}

impl DeepView for ModelInfoEntry {
    type V = ModelInfoEntryView;

    open spec fn deep_view(&self) -> ModelInfoEntryView {
        ModelInfoEntryView { key: self.key@, numeric: self.numeric, value: self.value }
    }
}

/// Mathematical image of an [`OllamaModel`].
pub ghost struct OllamaModelView {
    pub name: Seq<char>,
    pub model: Seq<char>,
    pub modified_at: Seq<char>,
    pub size: u64,
    pub digest: Seq<char>,
    pub details: Option<OllamaModelDetailsView>,
    pub model_info: Seq<ModelInfoEntryView>,
    pub capabilities: Seq<Seq<char>>,
}

/// One model as the backend lists it.
#[derive(Debug)]
pub struct OllamaModel {
    /// The name the model is addressed under.
    pub name: String,
    /// The backend's model identifier.
    pub model: String,
    /// Last modification timestamp as the backend sent it.
    pub modified_at: String,
    /// Size on disk in bytes.
    pub size: u64,
    /// Content digest.
    pub digest: String,
    /// Descriptive details, when the backend sent them.
    pub details: Option<OllamaModelDetails>,
    /// The model's metadata table.
    pub model_info: Vec<ModelInfoEntry>,
    /// The capabilities the backend lists for the model.
    pub capabilities: Vec<String>,
}

impl DeepView for OllamaModel {
    type V = OllamaModelView;

    open spec fn deep_view(&self) -> OllamaModelView {
        OllamaModelView {
            name: self.name@,
            model: self.model@,
            modified_at: self.modified_at@,
            size: self.size,
            digest: self.digest@,
            details: match self.details {
                Some(ref d) => Some(d.deep_view()),
                None => None,
            },
            model_info: self.model_info.deep_view(),
            capabilities: self.capabilities.deep_view(),
        }
    }
}

/// The context length the metadata names: the value of the first numeric
/// entry whose key ends in `context_length`, when that value is an
/// unsigned integer.
pub open spec fn spec_context_length(entries: Seq<ModelInfoEntryView>) -> Option<u64>
    decreases entries.len(),
{
    if entries.len() == 0 {
        None
    } else if spec_ends_with(entries[0].key, "context_length"@) && entries[0].numeric {
        entries[0].value
    } else {
        spec_context_length(entries.drop_first())
    }
}

proof fn lemma_context_length_step(entries: Seq<ModelInfoEntryView>, i: int)
    requires
        0 <= i < entries.len(),
        forall|j: int| 0 <= j < i ==> !(spec_ends_with(
            (#[trigger] entries[j]).key,
            "context_length"@,
        ) && entries[j].numeric),
    ensures
        spec_ends_with(entries[i].key, "context_length"@) && entries[i].numeric
            ==> spec_context_length(entries) == entries[i].value,
        !(spec_ends_with(entries[i].key, "context_length"@) && entries[i].numeric)
            ==> spec_context_length(entries) == spec_context_length(entries.skip(i + 1)),
    decreases i,
{
    if i == 0 {
        assert(entries.drop_first() =~= entries.skip(1));
    } else {
        lemma_context_length_step(entries.drop_first(), i - 1);
        assert(entries.drop_first() =~= entries.skip(1));
        assert(entries.skip(1)[i - 1] == entries[i]);
        assert(forall|j: int|
            0 <= j < i - 1 ==> (#[trigger] entries.skip(1)[j]) == entries[j + 1]);
        assert(entries.skip(1).skip(i) =~= entries.skip(i + 1));
    }
}

impl OllamaModel {
    /// Looks the model's context length up in its metadata: the first
    /// numeric entry whose key ends in `context_length`.
    pub fn get_context_length(&self) -> (r: Option<u64>)
        ensures
            r == spec_context_length(self.deep_view().model_info),
    {
        let ghost entries = self.deep_view().model_info;
        let mut i: usize = 0;
        while i < self.model_info.len()
            invariant
                i <= self.model_info.len(),
                entries == self.deep_view().model_info,
                entries.len() == self.model_info.len(),
                forall|j: int| 0 <= j < i ==> !(spec_ends_with(
                    (#[trigger] entries[j]).key,
                    "context_length"@,
                ) && entries[j].numeric),
            decreases self.model_info.len() - i,
        {
            let e = &self.model_info[i];
            if ends_with(e.key.as_str(), "context_length") && e.numeric {
                proof {
                    lemma_context_length_step(entries, i as int);
                }
                return e.value;
            }
            proof {
                lemma_context_length_step(entries, i as int);
            }
            i += 1;
        }
        proof {
            if entries.len() > 0 {
                lemma_context_length_step(entries, entries.len() - 1);
                assert(entries.skip(entries.len() as int).len() == 0);
            }
        }
        None
    }
}

} // verus!
