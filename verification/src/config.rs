//! Which labels an annotation carries, and their values.
use vstd::prelude::*;

verus! {

/// A label that takes one of a list of named states.
#[derive(Clone, Debug)]
pub struct LabelConfigString {
    pub name: String,
    pub states: Vec<String>,
    pub optional: bool,
}

/// A label that takes a whole number from `first` to `last`.
#[derive(Clone, Debug)]
pub struct LabelConfigInt {
    pub name: String,
    pub first: i32,
    pub last: i32,
    pub optional: bool,
}

/// A label configuration that says whether its label may be left out.
pub trait LabelConfigOptional {
    /// Whether the label may be left out.
    spec fn optional(&self) -> bool;

    /// Whether the label may be left out.
    fn is_optional(&self) -> (optional: bool)
        ensures
            optional == self.optional(),
    ;
}

impl LabelConfigOptional for LabelConfigString {
    open spec fn optional(&self) -> bool {
        self.optional
    }

    fn is_optional(&self) -> (optional: bool) {
        self.optional
    }
}

impl LabelConfigOptional for LabelConfigInt {
    open spec fn optional(&self) -> bool {
        self.optional
    }

    fn is_optional(&self) -> (optional: bool) {
        self.optional
    }
}

/// The configuration of one label.
#[derive(Clone, Debug)]
pub enum LabelConfig {
    /// A label with named states.
    S(LabelConfigString),
    /// A label with a number.
    I(LabelConfigInt),
}

/// The labels that every annotation carries, in order.
#[derive(Clone, Debug)]
pub struct LabelConfigs {
    pub label_configs: Vec<LabelConfig>,
}

/// One label of an annotation: the label's name and its value.
#[derive(Clone, Debug)]
pub struct LabelInstance<T> {
    pub name: String,
    pub state: T,
}

/// One label of an annotation.
#[derive(Debug)]
pub enum Label {
    /// A named state.
    S(LabelInstance<String>),
    /// A number.
    I(LabelInstance<i32>),
}

impl Clone for Label {
    fn clone(&self) -> (copy: Self)
        ensures
            copy == *self,
    {
        match self {
            Label::S(named) => Label::S(
                LabelInstance { name: named.name.clone(), state: named.state.clone() },
            ),
            Label::I(number) => Label::I(
                LabelInstance { name: number.name.clone(), state: number.state },
            ),
        }
    }
}

/// A configuration has a value for a new annotation to start with: a label
/// with named states needs at least one state.
pub open spec fn has_initial_state(config: LabelConfig) -> bool {
    match config {
        LabelConfig::S(named) => named.states@.len() > 0,
        LabelConfig::I(_) => true,
    }
}

/// The label that a new annotation starts with: the first state of a label
/// with named states, the lowest number of a label with a number.
pub open spec fn initial_label(config: LabelConfig) -> Label
    recommends
        has_initial_state(config),
{
    match config {
        LabelConfig::S(named) => Label::S(
            LabelInstance { name: named.name, state: named.states@[0] },
        ),
        LabelConfig::I(number) => Label::I(LabelInstance { name: number.name, state: number.first }),
    }
}

impl LabelConfig {
    /// Whether the label may be left out.
    pub fn is_optional(&self) -> (optional: bool)
        ensures
            optional == match *self {
                LabelConfig::S(named) => named.optional,
                LabelConfig::I(number) => number.optional,
            },
    {
        match self {
            LabelConfig::S(named) => named.is_optional(),
            LabelConfig::I(number) => number.is_optional(),
        }
    }

    /// The label's name.
    pub fn name(&self) -> (name: &String)
        ensures
            *name == match *self {
                LabelConfig::S(named) => named.name,
                LabelConfig::I(number) => number.name,
            },
    {
        match self {
            LabelConfig::S(named) => &named.name,
            LabelConfig::I(number) => &number.name,
        }
    }
}

impl LabelConfigs {
    /// Every label has a value for a new annotation to start with.
    pub open spec fn startable(&self) -> bool {
        forall|i: int|
            0 <= i < self.label_configs@.len() ==> has_initial_state(#[trigger] self.label_configs@[i])
    }

    /// Tells whether every label has a value for a new annotation to start
    /// with.
    pub fn is_startable(&self) -> (startable: bool)
        ensures
            startable == self.startable(),
    {
        let mut i: usize = 0;
        while i < self.label_configs.len()
            invariant
                i <= self.label_configs@.len(),
                forall|j: int| 0 <= j < i ==> has_initial_state(#[trigger] self.label_configs@[j]),
            decreases self.label_configs@.len() - i,
        {
            match &self.label_configs[i] {
                LabelConfig::S(named) => {
                    if named.states.len() == 0 {
                        assert(!has_initial_state(self.label_configs@[i as int]));
                        return false;
                    }
                },
                LabelConfig::I(_) => {},
            }
            i += 1;
        }
        true
    }

    /// The labels of a new annotation: one for each configuration, in order,
    /// each with its initial value.
    pub fn initial_labels(&self) -> (labels: Vec<Label>)
        requires
            self.startable(),
        ensures
            labels@.len() == self.label_configs@.len(),
            forall|i: int|
                0 <= i < labels@.len() ==> #[trigger] labels@[i] == initial_label(
                    self.label_configs@[i],
                ),
    {
        let mut labels: Vec<Label> = Vec::new();
        let mut i: usize = 0;
        while i < self.label_configs.len()
            invariant
                self.startable(),
                i <= self.label_configs@.len(),
                labels@.len() == i,
                forall|j: int|
                    0 <= j < i ==> #[trigger] labels@[j] == initial_label(self.label_configs@[j]),
            decreases self.label_configs@.len() - i,
        {
            assert(has_initial_state(self.label_configs@[i as int]));
            let label = match &self.label_configs[i] {
                LabelConfig::S(named) => Label::S(
                    LabelInstance { name: named.name.clone(), state: named.states[0].clone() },
                ),
                LabelConfig::I(number) => Label::I(
                    LabelInstance { name: number.name.clone(), state: number.first },
                ),
            };
            labels.push(label);
            i += 1;
        }
        labels
    }
}

/// The labels to start from: a required `animal`, which is `cat`, `dog` or
/// `possum`, and an optional `size` from 1 to 10.
pub open spec fn is_default_configs(configs: LabelConfigs) -> bool {
    &&& configs.label_configs@.len() == 2
    &&& configs.label_configs@[0] matches LabelConfig::S(animal) && animal.name@ == "animal"@
        && animal.states@.len() == 3 && animal.states@[0]@ == "cat"@ && animal.states@[1]@
        == "dog"@ && animal.states@[2]@ == "possum"@ && !animal.optional
    &&& configs.label_configs@[1] matches LabelConfig::I(size) && size.name@ == "size"@
        && size.first == 1 && size.last == 10 && size.optional
}

impl Default for LabelConfigs {
    /// The labels to start from.
    fn default() -> (configs: LabelConfigs)
        ensures
            is_default_configs(configs),
            configs.startable(),
    {
        let mut states: Vec<String> = Vec::new();
        states.push("cat".to_owned());
        states.push("dog".to_owned());
        states.push("possum".to_owned());
        let animal = LabelConfigString { name: "animal".to_owned(), states, optional: false };
        let size = LabelConfigInt { name: "size".to_owned(), first: 1, last: 10, optional: true };
        let mut label_configs: Vec<LabelConfig> = Vec::new();
        label_configs.push(LabelConfig::S(animal));
        label_configs.push(LabelConfig::I(size));
        LabelConfigs { label_configs }
    }
}

} // verus!
