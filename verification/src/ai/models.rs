//! The registry of configured models.

use vstd::prelude::*;
use vstd::string::StringExecFns;
use crate::config::schema::{ModelInfo, ModelInfoView};

verus! {

impl DeepView for ModelInfo {
    type V = ModelInfoView;

    open spec fn deep_view(&self) -> ModelInfoView {
        self@
    }
}

/// The configured models and the name of the one used by default.
#[derive(Debug, Clone, PartialEq, Eq)]
pub struct ModelRegistry {
    pub models: Vec<ModelInfo>,
    pub default_model_name: String,
}

/// Mathematical view of [`ModelRegistry`].
pub struct ModelRegistryView {
    pub models: Seq<ModelInfoView>,
    pub default_model_name: Seq<char>,
}

impl View for ModelRegistry {
    type V = ModelRegistryView;

    open spec fn view(&self) -> ModelRegistryView {
        ModelRegistryView {
            models: self.models.deep_view(),
            default_model_name: self.default_model_name@,
        }
    }
}

impl ModelRegistryView {
    /// Whether a model has the default name.
    pub open spec fn has_default(self) -> bool {
        exists|i: int| 0 <= i < self.models.len() && self.models[i].name == self.default_model_name
    }

    /// The first position `i` with the default name: no earlier model has it.
    pub open spec fn is_first_default(self, i: int) -> bool {
        &&& 0 <= i < self.models.len()
        &&& self.models[i].name == self.default_model_name
        &&& forall|j: int| 0 <= j < i ==> self.models[j].name != self.default_model_name
    }

    /// The model used when the registry holds none with the default name.
    pub open spec fn fallback() -> ModelInfoView {
        ModelInfoView { name: "default"@, max_tokens: 4096 }
    }

    /// The first model with the default name; the fallback if there is none.
    pub open spec fn default_model(self) -> ModelInfoView {
        if self.has_default() {
            self.models[choose|i: int| self.is_first_default(i)]
        } else {
            ModelRegistryView::fallback()
        }
    }

    /// Only one position is the first with the default name.
    pub proof fn lemma_first_default(self, i: int)
        requires
            self.is_first_default(i),
        ensures
            self.has_default(),
            self.default_model() == self.models[i],
    {
        let k = choose|k: int| self.is_first_default(k);
        if k < i {
        } else if i < k {
        }
    }
}

impl ModelRegistry {
    /// A registry of three models, the general one, the coder and the
    /// embedder, in this order, all with the same token limit; the general
    /// one is the default.
    pub fn from_config(default: String, coder: String, embed: String, max_tokens: u32) -> (registry:
        ModelRegistry)
        ensures
            registry@.models == seq![
                ModelInfoView { name: default@, max_tokens },
                ModelInfoView { name: coder@, max_tokens },
                ModelInfoView { name: embed@, max_tokens },
            ],
            registry@.default_model_name == default@,
    {
        let mut models: Vec<ModelInfo> = Vec::new();
        models.push(ModelInfo { name: default.clone(), max_tokens });
        models.push(ModelInfo { name: coder, max_tokens });
        models.push(ModelInfo { name: embed, max_tokens });
        let registry = ModelRegistry { models, default_model_name: default };
        assert(registry@.models =~= seq![
            ModelInfoView { name: default@, max_tokens },
            ModelInfoView { name: coder@, max_tokens },
            ModelInfoView { name: embed@, max_tokens },
        ]);
        registry
    }

    /// The first model with the default name; a model called `default` with
    /// 4096 tokens if there is none.
    pub fn default_model(&self) -> (model: ModelInfo)
        ensures
            model@ == self@.default_model(),
    {
        let mut i: usize = 0;
        while i < self.models.len()
            invariant
                i <= self.models.len(),
                forall|j: int| 0 <= j < i ==> self@.models[j].name != self@.default_model_name,
            decreases self.models.len() - i,
        {
            if self.models[i].name == self.default_model_name {
                assert(self@.models[i as int].name == self@.default_model_name);
                assert(self@.is_first_default(i as int));
                proof {
                    self@.lemma_first_default(i as int);
                }
                return self.models[i].duplicate();
            }
            i += 1;
        }
        ModelInfo { name: String::from_str("default"), max_tokens: 4096 }
    }
}

} // verus!
