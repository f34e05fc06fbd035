//! The states a kernel config option can be in, and the rule that decides
//! whether an observed state satisfies a desired one.

use vstd::prelude::*;
use vstd::std_specs::cmp::PartialEqSpecImpl;
use vstd::string::StringExecFns;
use crate::text::decimal_string;

verus! {

/// The mathematical value of a [`KconfigState`].
pub enum State {
    NotFound,
    NotSet,
    Off,
    Disabled,
    On,
    Module,
    Enabled,
    Value(u64),
    Text(Seq<char>),
}

impl State {
    /// A state that a kernel config can be observed in: every state but the
    /// two that stand for a set of others.
    pub open spec fn is_concrete(self) -> bool {
        !(self is Disabled) && !(self is Enabled)
    }

    /// The observed state `observed` meets the desired state `self`.
    ///
    /// `Disabled` is met by an option that is absent, not set or off;
    /// `Enabled` by one that is on or a module; every other state only by
    /// itself.
    pub open spec fn satisfied_by(self, observed: State) -> bool {
        match self {
            State::Disabled => observed is NotFound || observed is NotSet || observed is Off,
            State::Enabled => observed is On || observed is Module,
            _ => observed == self,
        }
    }

    /// The text a state is shown as.
    pub open spec fn display(self) -> Seq<char> {
        match self {
            State::NotFound => "NotFound"@,
            State::NotSet => "NotSet"@,
            State::Off => "Off"@,
            State::Disabled => "Disabled (NotFound, NotSet, or Off)"@,
            State::On => "On"@,
            State::Module => "Module"@,
            State::Enabled => "Enabled (On or Module)"@,
            State::Value(v) => crate::text::decimal(v as nat),
            State::Text(t) => t,
        }
    }
}

/// `Disabled` is met by exactly the states `NotFound`, `NotSet` and `Off`.
pub proof fn lemma_disabled_met_by_absent_unset_off(observed: State)
    ensures
        State::Disabled.satisfied_by(observed) <==> (observed is NotFound || observed is NotSet
            || observed is Off),
{
}

/// `Enabled` is met by exactly the states `On` and `Module`.
pub proof fn lemma_enabled_met_by_on_module(observed: State)
    ensures
        State::Enabled.satisfied_by(observed) <==> (observed is On || observed is Module),
{
}

/// A desired state other than `Disabled` and `Enabled` is met by itself
/// alone.
pub proof fn lemma_concrete_met_by_itself(desired: State, observed: State)
    requires
        desired.is_concrete(),
    ensures
        desired.satisfied_by(observed) <==> observed == desired,
{
}

/// The state of a kernel config option.
///
/// The kernel's own tristate (`y`, `m`, `n`) is widened here: a state can
/// also say that an option is absent or explicitly not set, and the two
/// states `Disabled` and `Enabled` each stand for a set of the others, for
/// requirements that do not care which member of the set is found.
#[derive(Debug)]
pub enum KconfigState {
    /// The option does not occur in the kernel config.
    NotFound,
    /// The option occurs as `# OPTION is not set`.
    NotSet,
    /// The option is set to `n`.
    Off,
    /// The option is `NotFound`, `NotSet` or `Off`.
    Disabled,
    /// The option is set to `y`.
    On,
    /// The option is set to `m`.
    Module,
    /// The option is set to `y` or to `m`.
    Enabled,
    /// The option is set to a number.
    Value(u64),
    /// The option is set to a text.
    Text(String),
}

impl View for KconfigState {
    type V = State;

    open spec fn view(&self) -> State {
        match self {
            KconfigState::NotFound => State::NotFound,
            KconfigState::NotSet => State::NotSet,
            KconfigState::Off => State::Off,
            KconfigState::Disabled => State::Disabled,
            KconfigState::On => State::On,
            KconfigState::Module => State::Module,
            KconfigState::Enabled => State::Enabled,
            KconfigState::Value(v) => State::Value(*v),
            KconfigState::Text(t) => State::Text(t@),
        }
    }
}

impl DeepView for KconfigState {
    type V = State;

    open spec fn deep_view(&self) -> State {
        self@
    }
}

impl Clone for KconfigState {
    fn clone(&self) -> (r: Self)
        ensures
            r == *self,
    {
        match self {
            KconfigState::NotFound => KconfigState::NotFound,
            KconfigState::NotSet => KconfigState::NotSet,
            KconfigState::Off => KconfigState::Off,
            KconfigState::Disabled => KconfigState::Disabled,
            KconfigState::On => KconfigState::On,
            KconfigState::Module => KconfigState::Module,
            KconfigState::Enabled => KconfigState::Enabled,
            KconfigState::Value(v) => KconfigState::Value(*v),
            KconfigState::Text(t) => KconfigState::Text(t.clone()),
        }
    }
}

impl Default for KconfigState {
    fn default() -> (r: Self)
        ensures
            r == KconfigState::NotFound,
    {
        KconfigState::NotFound
    }
}

impl PartialEq for KconfigState {
    fn eq(&self, other: &Self) -> (r: bool) {
        match self {
            KconfigState::NotFound => matches!(other, KconfigState::NotFound),
            KconfigState::NotSet => matches!(other, KconfigState::NotSet),
            KconfigState::Off => matches!(other, KconfigState::Off),
            KconfigState::Disabled => matches!(other, KconfigState::Disabled),
            KconfigState::On => matches!(other, KconfigState::On),
            KconfigState::Module => matches!(other, KconfigState::Module),
            KconfigState::Enabled => matches!(other, KconfigState::Enabled),
            KconfigState::Value(a) => match other {
                KconfigState::Value(b) => *a == *b,
                _ => false,
            },
            KconfigState::Text(a) => match other {
                KconfigState::Text(b) => *a == *b,
                _ => false,
            },
        }
    }
}

impl PartialEqSpecImpl for KconfigState {
    open spec fn obeys_eq_spec() -> bool {
        true
    }

    open spec fn eq_spec(&self, other: &Self) -> bool {
        self@ == other@
    }
}

impl KconfigState {
    /// The text this state is shown as.
    pub fn to_string(&self) -> (r: String)
        ensures
            r@ == self@.display(),
    {
        match self {
            KconfigState::NotFound => String::from_str("NotFound"),
            KconfigState::NotSet => String::from_str("NotSet"),
            KconfigState::Off => String::from_str("Off"),
            KconfigState::Disabled => String::from_str("Disabled (NotFound, NotSet, or Off)"),
            KconfigState::On => String::from_str("On"),
            KconfigState::Module => String::from_str("Module"),
            KconfigState::Enabled => String::from_str("Enabled (On or Module)"),
            KconfigState::Value(v) => decimal_string(*v),
            KconfigState::Text(t) => t.clone(),
        }
    }

    /// Whether a kernel config option observed in state `observed` meets
    /// the requirement that it be in state `self`.
    pub fn check(&self, observed: KconfigState) -> (r: bool)
        ensures
            r == self@.satisfied_by(observed@),
    {
        match self {
            KconfigState::Disabled => match observed {
                KconfigState::NotFound | KconfigState::NotSet | KconfigState::Off => true,
                _ => false,
            },
            KconfigState::Enabled => match observed {
                KconfigState::On | KconfigState::Module => true,
                _ => false,
            },
            _ => *self == observed,
        }
    }
}

/// The mathematical value of a [`KconfigOption`]: a symbol and the state
/// it is wanted in.
pub struct Requirement {
    pub name: Seq<char>,
    pub state: State,
}

impl Requirement {
    /// The text a requirement is shown as: the symbol, a colon, the state.
    pub open spec fn display(self) -> Seq<char> {
        self.name + ": "@ + self.state.display()
    }
}

/// A kernel config option together with the state it is wanted in.
#[derive(Debug)]
pub struct KconfigOption {
    /// The bare symbol of the option.
    name: String,
    /// The state the option is wanted in.
    state: KconfigState,
}

impl View for KconfigOption {
    type V = Requirement;

    closed spec fn view(&self) -> Requirement {
        Requirement { name: self.name@, state: self.state@ }
    }
}

impl DeepView for KconfigOption {
    type V = Requirement;

    open spec fn deep_view(&self) -> Requirement {
        self@
    }
}

impl Clone for KconfigOption {
    fn clone(&self) -> (r: Self)
        ensures
            r == *self,
    {
        KconfigOption { name: self.name.clone(), state: self.state.clone() }
    }
}

impl Default for KconfigOption {
    fn default() -> (r: Self)
        ensures
            r@ == (Requirement { name: Seq::empty(), state: State::NotFound }),
    {
        KconfigOption { name: String::new(), state: KconfigState::NotFound }
    }
}

impl PartialEq for KconfigOption {
    fn eq(&self, other: &Self) -> (r: bool) {
        self.name == other.name && self.state == other.state
    }
}

impl PartialEqSpecImpl for KconfigOption {
    open spec fn obeys_eq_spec() -> bool {
        true
    }

    open spec fn eq_spec(&self, other: &Self) -> bool {
        self@ == other@
    }
}

impl KconfigOption {
    /// A requirement that the option `name` be in state `state`.
    pub fn new(name: &str, state: KconfigState) -> (r: Self)
        ensures
            r@ == (Requirement { name: name@, state: state@ }),
    {
        KconfigOption { name: String::from_str(name), state }
    }

    /// The symbol of the option.
    pub fn name(&self) -> (r: String)
        ensures
            r@ == self@.name,
    {
        self.name.clone()
    }

    /// The state the option is wanted in.
    pub fn state(&self) -> (r: KconfigState)
        ensures
            r@ == self@.state,
    {
        self.state.clone()
    }

    /// The text this requirement is shown as.
    pub fn to_string(&self) -> (r: String)
        ensures
            r@ == self@.display(),
    {
        let mut r = self.name.clone();
        r.append(": ");
        r.append(self.state.to_string().as_str());
        r
    }
}

} // verus!
