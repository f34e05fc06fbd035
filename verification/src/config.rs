//! Requirement documents: fragments of wanted option states, the documents
//! that group them, and the rules by which several documents become one
//! ordered check list.

use vstd::prelude::*;
use vstd::std_specs::cmp::PartialEqSpecImpl;
use vstd::string::StringExecFns;
use crate::error::{outcome, Failure, KcheckError, KcheckResult};
use crate::kconfig::{KconfigOption, KconfigState, Requirement, State};
use crate::util::{joined, option_vector_append};

verus! {

/// The mathematical value of a [`KcheckConfigFragment`].
pub struct Fragment {
    pub name: Option<Seq<char>>,
    pub reason: Option<Seq<char>>,
    pub kernel: Seq<Requirement>,
}

impl Fragment {
    /// A fragment is empty where it has no name, no reason and no option.
    pub open spec fn is_empty(self) -> bool {
        self.name is None && self.reason is None && self.kernel.len() == 0
    }
}

/// The mathematical value of a [`KcheckConfig`].
pub struct Document {
    pub name: Option<Seq<char>>,
    pub kernel: Option<Seq<Requirement>>,
    pub fragment: Option<Seq<Fragment>>,
}

/// The options of a list of fragments, fragment after fragment.
pub open spec fn fragment_options(fragments: Seq<Fragment>) -> Seq<Requirement> {
    fragments.map_values(|fragment: Fragment| fragment.kernel).flatten()
}

impl Document {
    /// The document with nothing in it.
    pub open spec fn empty() -> Document {
        Document { name: None, kernel: None, fragment: None }
    }

    /// A document is empty where it has no name, and neither an option nor
    /// a fragment.
    pub open spec fn is_empty(self) -> bool {
        &&& self.name is None
        &&& self.kernel is Some ==> self.kernel->0.len() == 0
        &&& self.fragment is Some ==> self.fragment->0.len() == 0
    }

    /// The options that stand outside any fragment.
    pub open spec fn options(self) -> Seq<Requirement> {
        match self.kernel {
            Some(kernel) => kernel,
            None => Seq::empty(),
        }
    }

    /// The fragments.
    pub open spec fn fragments(self) -> Seq<Fragment> {
        match self.fragment {
            Some(fragment) => fragment,
            None => Seq::empty(),
        }
    }

    /// This document with the options and fragments of `other` after its
    /// own. The name stays that of this document.
    pub open spec fn merged(self, other: Document) -> Document {
        Document {
            name: self.name,
            kernel: joined(self.kernel, other.kernel),
            fragment: joined(self.fragment, other.fragment),
        }
    }

    /// The requirements of the document in the order they are checked in:
    /// the options outside any fragment first, then those of each fragment,
    /// fragment after fragment.
    pub open spec fn requirements(self) -> Seq<Requirement> {
        self.options() + fragment_options(self.fragments())
    }

    /// The check list: each requirement as a symbol and the state wanted.
    pub open spec fn check_list(self) -> Seq<(Seq<char>, State)> {
        self.requirements().map_values(|r: Requirement| (r.name, r.state))
    }
}

/// Whether two optional texts are the same.
fn same_text(a: &Option<String>, b: &Option<String>) -> (r: bool)
    ensures
        r == (a.deep_view() == b.deep_view()),
{
    match a {
        None => b.is_none(),
        Some(x) => match b {
            None => false,
            Some(y) => *x == *y,
        },
    }
}

/// Whether two lists of options are the same.
fn same_options(a: &Vec<KconfigOption>, b: &Vec<KconfigOption>) -> (r: bool)
    ensures
        r == (a.deep_view() == b.deep_view()),
{
    if a.len() != b.len() {
        assert(a.deep_view().len() != b.deep_view().len());
        return false;
    }
    let n = a.len();
    let mut i: usize = 0;
    while i < n
        invariant
            n == a@.len(),
            n == b@.len(),
            i <= n,
            forall|j: int| 0 <= j < i ==> a@[j]@ == b@[j]@,
        decreases n - i,
    {
        if a[i] != b[i] {
            assert(a.deep_view()[i as int] != b.deep_view()[i as int]);
            return false;
        }
        i += 1;
    }
    assert(a.deep_view() =~= b.deep_view());
    true
}

/// A copy of a list of options.
fn copy_options(list: &Vec<KconfigOption>) -> (r: Vec<KconfigOption>)
    ensures
        r.deep_view() == list.deep_view(),
{
    let mut r: Vec<KconfigOption> = Vec::new();
    let n = list.len();
    let mut i: usize = 0;
    while i < n
        invariant
            n == list@.len(),
            i <= n,
            r@.len() == i,
            forall|j: int| 0 <= j < i ==> r@[j]@ == list@[j]@,
        decreases n - i,
    {
        r.push(list[i].clone());
        i += 1;
    }
    assert(r.deep_view() =~= list.deep_view());
    r
}

/// A named group of wanted option states, with the reason for wanting them.
#[derive(Debug)]
pub struct KcheckConfigFragment {
    /// The name of the fragment.
    name: Option<String>,
    /// Why the options of the fragment are wanted.
    reason: Option<String>,
    /// The options of the fragment.
    kernel: Vec<KconfigOption>,
}

impl View for KcheckConfigFragment {
    type V = Fragment;

    closed spec fn view(&self) -> Fragment {
        Fragment {
            name: self.name.deep_view(),
            reason: self.reason.deep_view(),
            kernel: self.kernel.deep_view(),
        }
    }
}

impl DeepView for KcheckConfigFragment {
    type V = Fragment;

    open spec fn deep_view(&self) -> Fragment {
        self@
    }
}

impl Clone for KcheckConfigFragment {
    fn clone(&self) -> (r: Self)
        ensures
            r@ == self@,
    {
        KcheckConfigFragment {
            name: self.name.clone(),
            reason: self.reason.clone(),
            kernel: copy_options(&self.kernel),
        }
    }
}

impl Default for KcheckConfigFragment {
    fn default() -> (r: Self)
        ensures
            r@ == (Fragment { name: None, reason: None, kernel: Seq::empty() }),
    {
        let kernel: Vec<KconfigOption> = Vec::new();
        assert(kernel.deep_view() =~= Seq::empty());
        KcheckConfigFragment { name: None, reason: None, kernel }
    }
}

impl PartialEq for KcheckConfigFragment {
    fn eq(&self, other: &Self) -> (r: bool) {
        same_text(&self.name, &other.name) && same_text(&self.reason, &other.reason)
            && same_options(&self.kernel, &other.kernel)
    }
}

impl PartialEqSpecImpl for KcheckConfigFragment {
    open spec fn obeys_eq_spec() -> bool {
        true
    }

    open spec fn eq_spec(&self, other: &Self) -> bool {
        self@ == other@
    }
}

impl KcheckConfigFragment {
    /// A fragment with a name, a reason and its options.
    pub fn new(name: String, reason: String, kernel: Vec<KconfigOption>) -> (r: Self)
        ensures
            r@ == (Fragment {
                name: Some(name@),
                reason: Some(reason@),
                kernel: kernel.deep_view(),
            }),
    {
        KcheckConfigFragment { name: Some(name), reason: Some(reason), kernel }
    }

    /// A fragment whose name and reason may be absent.
    pub fn from_parts(
        name: Option<String>,
        reason: Option<String>,
        kernel: Vec<KconfigOption>,
    ) -> (r: Self)
        ensures
            r@ == (Fragment {
                name: name.deep_view(),
                reason: reason.deep_view(),
                kernel: kernel.deep_view(),
            }),
    {
        KcheckConfigFragment { name, reason, kernel }
    }

    /// Whether the fragment is empty.
    pub fn is_empty(&self) -> (r: bool)
        ensures
            r == self@.is_empty(),
    {
        self.name.is_none() && self.reason.is_none() && self.kernel.is_empty()
    }

    /// The name of the fragment.
    pub fn name(&self) -> (r: Option<String>)
        ensures
            r.deep_view() == self@.name,
    {
        self.name.clone()
    }

    /// Why the options of the fragment are wanted.
    pub fn reason(&self) -> (r: Option<String>)
        ensures
            r.deep_view() == self@.reason,
    {
        self.reason.clone()
    }

    /// The options of the fragment.
    pub fn kernel(&self) -> (r: Vec<KconfigOption>)
        ensures
            r.deep_view() == self@.kernel,
    {
        copy_options(&self.kernel)
    }
}

/// Whether two lists of fragments are the same.
fn same_fragments(a: &Vec<KcheckConfigFragment>, b: &Vec<KcheckConfigFragment>) -> (r: bool)
    ensures
        r == (a.deep_view() == b.deep_view()),
{
    if a.len() != b.len() {
        assert(a.deep_view().len() != b.deep_view().len());
        return false;
    }
    let n = a.len();
    let mut i: usize = 0;
    while i < n
        invariant
            n == a@.len(),
            n == b@.len(),
            i <= n,
            forall|j: int| 0 <= j < i ==> a@[j]@ == b@[j]@,
        decreases n - i,
    {
        if a[i] != b[i] {
            assert(a.deep_view()[i as int] != b.deep_view()[i as int]);
            return false;
        }
        i += 1;
    }
    assert(a.deep_view() =~= b.deep_view());
    true
}

/// A copy of a list of fragments.
fn copy_fragments(list: &Vec<KcheckConfigFragment>) -> (r: Vec<KcheckConfigFragment>)
    ensures
        r.deep_view() == list.deep_view(),
{
    let mut r: Vec<KcheckConfigFragment> = Vec::new();
    let n = list.len();
    let mut i: usize = 0;
    while i < n
        invariant
            n == list@.len(),
            i <= n,
            r@.len() == i,
            forall|j: int| 0 <= j < i ==> r@[j]@ == list@[j]@,
        decreases n - i,
    {
        r.push(list[i].clone());
        i += 1;
    }
    assert(r.deep_view() =~= list.deep_view());
    r
}

/// Each requirement as a symbol and the state wanted.
pub open spec fn pairs(requirements: Seq<Requirement>) -> Seq<(Seq<char>, State)> {
    requirements.map_values(|r: Requirement| (r.name, r.state))
}

/// Adds the options of `options` to a check list.
fn push_pairs(list: &mut Vec<(String, KconfigState)>, options: &Vec<KconfigOption>)
    ensures
        final(list).deep_view() == old(list).deep_view() + pairs(options.deep_view()),
{
    let n = options.len();
    let mut i: usize = 0;
    assert(options.deep_view().take(0) =~= Seq::empty());
    assert(list.deep_view() =~= old(list).deep_view() + pairs(options.deep_view().take(0)));
    while i < n
        invariant
            n == options@.len(),
            i <= n,
            list.deep_view() == old(list).deep_view() + pairs(options.deep_view().take(i as int)),
        decreases n - i,
    {
        let ghost before = list.deep_view();
        let name = options[i].name();
        let state = options[i].state();
        list.push((name, state));
        proof {
            let all = options.deep_view();
            assert(list.deep_view() =~= before.push((all[i as int].name, all[i as int].state)));
            assert(all.take(i + 1) =~= all.take(i as int).push(all[i as int]));
            assert(pairs(all.take(i + 1)) =~= pairs(all.take(i as int)).push(
                (all[i as int].name, all[i as int].state),
            ));
        }
        i += 1;
        assert(list.deep_view() =~= old(list).deep_view() + pairs(
            options.deep_view().take(i as int),
        ));
    }
    assert(options.deep_view().take(n as int) =~= options.deep_view());
}

/// A requirement document: wanted option states, some of them grouped in
/// fragments.
#[derive(Debug)]
pub struct KcheckConfig {
    /// The name of the document.
    name: Option<String>,
    /// The options that stand outside any fragment.
    kernel: Option<Vec<KconfigOption>>,
    /// The fragments, each a group of options that belong together.
    fragment: Option<Vec<KcheckConfigFragment>>,
}

impl View for KcheckConfig {
    type V = Document;

    closed spec fn view(&self) -> Document {
        Document {
            name: self.name.deep_view(),
            kernel: self.kernel.deep_view(),
            fragment: self.fragment.deep_view(),
        }
    }
}

impl DeepView for KcheckConfig {
    type V = Document;

    open spec fn deep_view(&self) -> Document {
        self@
    }
}

impl Clone for KcheckConfig {
    fn clone(&self) -> (r: Self)
        ensures
            r@ == self@,
    {
        let kernel = match &self.kernel {
            Some(kernel) => Some(copy_options(kernel)),
            None => None,
        };
        let fragment = match &self.fragment {
            Some(fragment) => Some(copy_fragments(fragment)),
            None => None,
        };
        KcheckConfig { name: self.name.clone(), kernel, fragment }
    }
}

impl Default for KcheckConfig {
    fn default() -> (r: Self)
        ensures
            r@ == Document::empty(),
    {
        KcheckConfig { name: None, kernel: None, fragment: None }
    }
}

impl PartialEq for KcheckConfig {
    fn eq(&self, other: &Self) -> (r: bool) {
        let kernel = match &self.kernel {
            None => other.kernel.is_none(),
            Some(a) => match &other.kernel {
                None => false,
                Some(b) => same_options(a, b),
            },
        };
        let fragment = match &self.fragment {
            None => other.fragment.is_none(),
            Some(a) => match &other.fragment {
                None => false,
                Some(b) => same_fragments(a, b),
            },
        };
        same_text(&self.name, &other.name) && kernel && fragment
    }
}

impl PartialEqSpecImpl for KcheckConfig {
    open spec fn obeys_eq_spec() -> bool {
        true
    }

    open spec fn eq_spec(&self, other: &Self) -> bool {
        self@ == other@
    }
}

/// A document that could not be loaded because its file is absent.
pub open spec fn is_absent(load: Result<Document, Failure>) -> bool {
    load matches Err(Failure::FileDoesNotExist(_))
}

/// A document whose loading failed for another reason than absence.
pub open spec fn aborts(load: Result<Document, Failure>) -> bool {
    load is Err && !is_absent(load)
}

/// `at` is the first document whose loading failed for another reason
/// than absence.
pub open spec fn is_first_abort(loads: Seq<Result<Document, Failure>>, at: int) -> bool {
    &&& 0 <= at < loads.len()
    &&& aborts(loads[at])
    &&& forall|earlier: int| 0 <= earlier < at ==> !aborts(#[trigger] loads[earlier])
}

/// The documents that were loaded, in order.
pub open spec fn loaded(loads: Seq<Result<Document, Failure>>) -> Seq<Document> {
    loads.filter_map(
        |load: Result<Document, Failure>|
            match load {
                Ok(document) => Some(document),
                Err(_) => None,
            },
    )
}

/// Documents combined from left to right: the first, with the options and
/// fragments of each later one after those before it.
pub open spec fn combined(documents: Seq<Document>) -> Document
    decreases documents.len(),
{
    if documents.len() == 0 {
        Document::empty()
    } else if documents.len() == 1 {
        documents[0]
    } else {
        combined(documents.drop_last()).merged(documents.last())
    }
}

/// What a list of loaded or failed documents aggregates to.
///
/// A failure other than absence aborts, the first one first. Absent
/// documents are passed over. With no document loaded there is no
/// configuration; else the loaded ones are combined.
pub open spec fn aggregate(loads: Seq<Result<Document, Failure>>) -> Result<Document, Failure> {
    if exists|at: int| is_first_abort(loads, at) {
        Err(loads[choose|at: int| is_first_abort(loads, at)]->Err_0)
    } else if loaded(loads).len() == 0 {
        Err(Failure::NoConfig)
    } else {
        Ok(combined(loaded(loads)))
    }
}

/// The fragments of two lists, one after the other, hold the options of
/// the first list followed by those of the second.
pub proof fn lemma_fragment_options_concat(first: Seq<Fragment>, second: Seq<Fragment>)
    ensures
        fragment_options(first + second) == fragment_options(first) + fragment_options(second),
{
    let kernel = |fragment: Fragment| fragment.kernel;
    assert((first + second).map_values(kernel) =~= first.map_values(kernel) + second.map_values(
        kernel,
    ));
    vstd::seq_lib::lemma_flatten_concat(first.map_values(kernel), second.map_values(kernel));
}

/// In a merged document the options that stand outside any fragment come
/// first, those of the first document before those of the second; the
/// options of the fragments follow, again the first document's before the
/// second's.
pub proof fn lemma_merged_requirements(first: Document, second: Document)
    ensures
        first.merged(second).name == first.name,
        first.merged(second).requirements() == first.options() + second.options()
            + fragment_options(first.fragments()) + fragment_options(second.fragments()),
{
    let both = first.merged(second);
    assert(both.options() =~= first.options() + second.options());
    assert(both.fragments() =~= first.fragments() + second.fragments());
    lemma_fragment_options_concat(first.fragments(), second.fragments());
    assert(both.requirements() =~= first.options() + second.options() + fragment_options(
        first.fragments(),
    ) + fragment_options(second.fragments()));
}

/// Combined documents carry the name of the first of them, whatever the
/// later ones are called.
pub proof fn lemma_combined_name(documents: Seq<Document>)
    requires
        documents.len() > 0,
    ensures
        combined(documents).name == documents[0].name,
    decreases documents.len(),
{
    if documents.len() > 1 {
        lemma_combined_name(documents.drop_last());
    }
}

/// The check list holds one entry for each requirement, duplicates
/// included.
pub proof fn lemma_check_list_len(document: Document)
    ensures
        document.check_list().len() == document.options().len() + fragment_options(
            document.fragments(),
        ).len(),
{
}

/// Where every document was loaded there is no failure: the documents are
/// combined, all of them, in order.
pub proof fn lemma_aggregate_of_loaded(documents: Seq<Document>)
    requires
        documents.len() > 0,
    ensures
        aggregate(documents.map_values(|document: Document| Ok::<Document, Failure>(document)))
            == Ok::<Document, Failure>(combined(documents)),
{
    let loads = documents.map_values(|document: Document| Ok::<Document, Failure>(document));
    lemma_loaded_of_loaded(documents);
    assert(!exists|at: int| is_first_abort(loads, at));
}

/// Of documents that were all loaded, all count as loaded.
proof fn lemma_loaded_of_loaded(documents: Seq<Document>)
    ensures
        loaded(documents.map_values(|document: Document| Ok::<Document, Failure>(document)))
            == documents,
    decreases documents.len(),
{
    let wrap = |document: Document| Ok::<Document, Failure>(document);
    let loads = documents.map_values(wrap);
    if documents.len() > 0 {
        lemma_loaded_of_loaded(documents.drop_last());
        assert(loads.drop_last() =~= documents.drop_last().map_values(wrap));
        assert(loaded(loads) =~= documents);
    } else {
        assert(loaded(loads) =~= documents);
    }
}

/// Absent documents make no difference: with them or without, the same
/// documents count as loaded and the same failure comes first.
pub proof fn lemma_aggregate_skips_absent(
    loads: Seq<Result<Document, Failure>>,
    path: Seq<char>,
)
    ensures
        aggregate(loads.push(Err(Failure::FileDoesNotExist(path)))) == aggregate(loads),
{
    let absent = Err::<Document, Failure>(Failure::FileDoesNotExist(path));
    let more = loads.push(absent);
    let pick = |load: Result<Document, Failure>|
        match load {
            Ok(document) => Some(document),
            Err(_) => None,
        };
    assert(more.drop_last() =~= loads);
    assert(loaded(more) =~= loaded(loads));
    assert forall|at: int| is_first_abort(more, at) <==> is_first_abort(loads, at) by {
        if is_first_abort(more, at) {
            assert(at < loads.len());
            assert forall|earlier: int| 0 <= earlier < at implies !aborts(
                #[trigger] loads[earlier],
            ) by {
                assert(more[earlier] == loads[earlier]);
            }
        }
        if is_first_abort(loads, at) {
            assert(more[at] == loads[at]);
            assert forall|earlier: int| 0 <= earlier < at implies !aborts(
                #[trigger] more[earlier],
            ) by {
                assert(more[earlier] == loads[earlier]);
            }
        }
    }
    if exists|at: int| is_first_abort(loads, at) {
        let a = choose|at: int| is_first_abort(loads, at);
        let b = choose|at: int| is_first_abort(more, at);
        assert(is_first_abort(more, a));
        lemma_first_abort_unique(loads, a, b);
        assert(more[b] == loads[a]);
    }
}

/// The mathematical value of a list of loaded or failed documents.
pub open spec fn outcomes(documents: Seq<KcheckResult<KcheckConfig>>) -> Seq<
    Result<Document, Failure>,
> {
    documents.map_values(|load: KcheckResult<KcheckConfig>| outcome(load))
}

/// There is only one first abort.
pub proof fn lemma_first_abort_unique(loads: Seq<Result<Document, Failure>>, a: int, b: int)
    requires
        is_first_abort(loads, a),
        is_first_abort(loads, b),
    ensures
        a == b,
{
    if a < b {
        assert(!aborts(loads[a]));
    } else if b < a {
        assert(!aborts(loads[b]));
    }
}

impl KcheckConfig {
    /// A document of the given parts.
    pub fn new(
        name: Option<String>,
        kernel: Option<Vec<KconfigOption>>,
        fragment: Option<Vec<KcheckConfigFragment>>,
    ) -> (r: Self)
        ensures
            r@ == (Document {
                name: name.deep_view(),
                kernel: kernel.deep_view(),
                fragment: fragment.deep_view(),
            }),
    {
        KcheckConfig { name, kernel, fragment }
    }

    /// Moves the options and fragments of `other` behind those of `self`.
    /// Both keep their names.
    pub fn append(&mut self, other: &mut Self)
        ensures
            final(self)@ == old(self)@.merged(old(other)@),
            final(other)@ == (Document { name: old(other)@.name, kernel: None, fragment: None }),
    {
        let ghost mine = self@;
        let ghost theirs = other@;
        let kernel = self.kernel.take();
        let more_kernel = other.kernel.take();
        let new_kernel = option_vector_append(kernel, more_kernel);
        proof {
            if kernel is Some && more_kernel is Some {
                assert(new_kernel->0.deep_view() =~= kernel->0.deep_view()
                    + more_kernel->0.deep_view());
            }
        }
        self.kernel = new_kernel;
        let fragment = self.fragment.take();
        let more_fragment = other.fragment.take();
        let new_fragment = option_vector_append(fragment, more_fragment);
        proof {
            if fragment is Some && more_fragment is Some {
                assert(new_fragment->0.deep_view() =~= fragment->0.deep_view()
                    + more_fragment->0.deep_view());
            }
        }
        self.fragment = new_fragment;
    }

    /// Whether the document is empty: no name, no option, no fragment.
    pub fn is_empty(&self) -> (r: bool)
        ensures
            r == self@.is_empty(),
    {
        let fragment_is_empty = match &self.fragment {
            Some(fragment) => fragment.is_empty(),
            None => true,
        };
        let kernel_is_empty = match &self.kernel {
            Some(kernel) => kernel.is_empty(),
            None => true,
        };
        self.name.is_none() && kernel_is_empty && fragment_is_empty
    }

    /// The name of the document.
    pub fn name(&self) -> (r: Option<String>)
        ensures
            r.deep_view() == self@.name,
    {
        self.name.clone()
    }

    /// The options that stand outside any fragment.
    pub fn kernel(&self) -> (r: Option<Vec<KconfigOption>>)
        ensures
            r.deep_view() == self@.kernel,
    {
        match &self.kernel {
            Some(kernel) => Some(copy_options(kernel)),
            None => None,
        }
    }

    /// The fragments.
    pub fn fragment(&self) -> (r: Option<Vec<KcheckConfigFragment>>)
        ensures
            r.deep_view() == self@.fragment,
    {
        match &self.fragment {
            Some(fragment) => Some(copy_fragments(fragment)),
            None => None,
        }
    }

    /// The check list of the document: its own options first, then those
    /// of each fragment in turn. Nothing is dropped, so a symbol that is
    /// wanted twice is checked twice.
    pub fn into_check_list(self) -> (r: Vec<(String, KconfigState)>)
        ensures
            r.deep_view() == self@.check_list(),
    {
        let mut list: Vec<(String, KconfigState)> = Vec::new();
        assert(list.deep_view() =~= Seq::empty());
        match &self.kernel {
            Some(kernel) => {
                push_pairs(&mut list, kernel);
            },
            None => {},
        }
        assert(list.deep_view() =~= pairs(self@.options()));
        match &self.fragment {
            Some(fragments) => {
                let ghost all = fragments.deep_view();
                let ghost lists = all.map_values(|fragment: Fragment| fragment.kernel);
                let n = fragments.len();
                let mut i: usize = 0;
                assert(lists.take(0) =~= Seq::empty());
                assert(self@.options() + lists.take(0).flatten() =~= self@.options());
                while i < n
                    invariant
                        n == fragments@.len(),
                        i <= n,
                        all == fragments.deep_view(),
                        lists == all.map_values(|fragment: Fragment| fragment.kernel),
                        list.deep_view() == pairs(
                            self@.options() + lists.take(i as int).flatten(),
                        ),
                    decreases n - i,
                {
                    let ghost before = self@.options() + lists.take(i as int).flatten();
                    push_pairs(&mut list, &fragments[i].kernel);
                    proof {
                        let more = lists[i as int];
                        assert(more == fragments@[i as int].kernel.deep_view());
                        assert(lists.take(i + 1) =~= lists.take(i as int).push(more));
                        lists.take(i as int).lemma_flatten_push(more);
                        assert(pairs(before) + pairs(more) =~= pairs(before + more));
                        assert(self@.options() + lists.take(i + 1).flatten() =~= before + more);
                    }
                    i += 1;
                }
                assert(lists.take(n as int) =~= lists);
            },
            None => {
                assert(self@.options() + fragment_options(Seq::empty()) =~= self@.options());
            },
        }
        list
    }

    /// Aggregates requirement documents, each loaded or failed, into one.
    ///
    /// Documents whose file is absent are passed over; any other failure
    /// is returned, the first one first. The loaded documents are combined
    /// from left to right; with none loaded the result is `NoConfig`.
    pub fn generate(documents: Vec<KcheckResult<KcheckConfig>>) -> (r: KcheckResult<KcheckConfig>)
        ensures
            outcome(r) == aggregate(outcomes(documents@)),
    {
        let ghost loads = outcomes(documents@);
        let ghost pick = |load: Result<Document, Failure>|
            match load {
                Ok(document) => Some(document),
                Err(_) => None,
            };
        let n = documents.len();
        let mut total: Option<KcheckConfig> = None;
        let mut i: usize = 0;
        assert(loads.take(0) =~= Seq::empty());
        while i < n
            invariant
                n == documents@.len(),
                i <= n,
                loads == outcomes(documents@),
                pick == (|load: Result<Document, Failure>|
                    match load {
                        Ok(document) => Some(document),
                        Err(_) => None,
                    }),
                forall|j: int| 0 <= j < i ==> !aborts(#[trigger] loads[j]),
                total is None <==> loads.take(i as int).filter_map(pick).len() == 0,
                total is Some ==> total->0@ == combined(loads.take(i as int).filter_map(pick)),
            decreases n - i,
        {
            let ghost before = loads.take(i as int).filter_map(pick);
            proof {
                loads.lemma_filter_map_take_succ(pick, i as int);
            }
            match &documents[i] {
                Ok(document) => {
                    let mut next = document.clone();
                    let ghost after = loads.take(i + 1).filter_map(pick);
                    assert(after =~= before.push(next@));
                    assert(after.drop_last() =~= before);
                    match total {
                        None => {
                            total = Some(next);
                        },
                        Some(mut sum) => {
                            sum.append(&mut next);
                            total = Some(sum);
                        },
                    }
                },
                Err(error) => {
                    assert(loads.take(i + 1).filter_map(pick) =~= before);
                    match error {
                        KcheckError::FileDoesNotExist(_) => {},
                        _ => {
                            assert(is_first_abort(loads, i as int));
                            proof {
                                let chosen = choose|at: int| is_first_abort(loads, at);
                                lemma_first_abort_unique(loads, chosen, i as int);
                            }
                            return Err(error.clone());
                        },
                    }
                },
            }
            i += 1;
        }
        assert(loads.take(n as int) =~= loads);
        assert(!exists|at: int| is_first_abort(loads, at));
        match total {
            Some(document) => Ok(document),
            None => Err(KcheckError::NoConfig),
        }
    }
}

/// The mathematical value of a [`KcheckConfigBuilder`].
pub struct Gathering {
    /// The name given directly.
    pub name: Option<Seq<char>>,
    /// The options given directly.
    pub kernel: Option<Seq<Requirement>>,
    /// The fragments given directly.
    pub fragment: Option<Seq<Fragment>>,
    /// Whether the documents of the system are asked for.
    pub use_sys_cfg: bool,
    /// The paths of the documents that the user asked for.
    pub user_cfg_files: Seq<Seq<char>>,
    /// What loading the files gave, by position in `files`.
    pub documents: Seq<Result<Document, Failure>>,
}

impl Gathering {
    /// The builder that was given nothing.
    pub open spec fn empty() -> Gathering {
        Gathering {
            name: None,
            kernel: None,
            fragment: None,
            use_sys_cfg: false,
            user_cfg_files: Seq::empty(),
            documents: Seq::empty(),
        }
    }

    /// The paths of the documents of the system, where they are asked for.
    pub open spec fn system_files(self) -> Seq<Seq<char>> {
        if self.use_sys_cfg {
            seq!["/etc/kcheck.toml"@, "/etc/kcheck.json"@]
        } else {
            Seq::empty()
        }
    }

    /// The paths of all documents to load: those of the system first, then
    /// those of the user.
    pub open spec fn files(self) -> Seq<Seq<char>> {
        self.system_files() + self.user_cfg_files
    }

    /// What loading the file at position `at` gave. A file for which
    /// nothing was handed in counts as absent.
    pub open spec fn load(self, at: int) -> Result<Document, Failure> {
        if 0 <= at < self.documents.len() {
            self.documents[at]
        } else {
            Err(Failure::FileDoesNotExist(self.files()[at]))
        }
    }

    /// What loading each file gave, in the order of `files`.
    pub open spec fn loads(self) -> Seq<Result<Document, Failure>> {
        Seq::new(self.files().len(), |at: int| self.load(at))
    }

    /// `at` is the position of the first file of the user that is absent.
    pub open spec fn is_first_missing(self, at: int) -> bool {
        &&& self.system_files().len() <= at < self.files().len()
        &&& is_absent(self.load(at))
        &&& forall|earlier: int|
            self.system_files().len() <= earlier < at ==> !is_absent(#[trigger] self.load(earlier))
    }

    /// Whether a name, options or fragments were given directly.
    pub open spec fn has_direct(self) -> bool {
        self.name is Some || self.kernel is Some || self.fragment is Some
    }

    /// The document made of what was given directly.
    pub open spec fn direct(self) -> Document {
        Document { name: self.name, kernel: self.kernel, fragment: self.fragment }
    }

    /// Everything that is aggregated: the files in order, then what was
    /// given directly.
    pub open spec fn all_loads(self) -> Seq<Result<Document, Failure>> {
        if self.has_direct() {
            self.loads().push(Ok(self.direct()))
        } else {
            self.loads()
        }
    }

    /// What the builder builds.
    ///
    /// A file of the user that is absent is an error, the first such file
    /// first, before anything is loaded. Else the files and what was given
    /// directly are aggregated; an absent file of the system is passed
    /// over there.
    pub open spec fn build(self) -> Result<Document, Failure> {
        if exists|at: int| self.is_first_missing(at) {
            Err(Failure::FileDoesNotExist(self.files()[choose|at: int| self.is_first_missing(at)]))
        } else {
            aggregate(self.all_loads())
        }
    }
}

/// The formats a requirement document can be written in.
#[derive(Clone, Copy, Debug, PartialEq, Eq, Structural)]
pub enum DocumentFormat {
    Toml,
    Json,
}

/// The format that the extension of a path names.
///
/// A path without extension is rejected as such, and so is an extension
/// that is neither `toml` nor `json`.
pub open spec fn format_of_extension(extension: Option<Seq<char>>) -> Result<
    DocumentFormat,
    Failure,
> {
    match extension {
        None => Err(Failure::MissingFileExtension),
        Some(text) => if text == "toml"@ {
            Ok(DocumentFormat::Toml)
        } else if text == "json"@ {
            Ok(DocumentFormat::Json)
        } else {
            Err(Failure::UnknownFileType(text))
        },
    }
}

/// The mathematical value of a format, or of the reason there is none.
pub open spec fn format_outcome(r: KcheckResult<DocumentFormat>) -> Result<
    DocumentFormat,
    Failure,
> {
    match r {
        Ok(format) => Ok(format),
        Err(error) => Err(error@),
    }
}

impl DocumentFormat {
    /// The format that an extension names.
    pub fn from_extension(extension: Option<String>) -> (r: KcheckResult<DocumentFormat>)
        ensures
            format_outcome(r) == format_of_extension(extension.deep_view()),
    {
        match extension {
            None => Err(KcheckError::MissingFileExtension),
            Some(text) => {
                let toml = String::from_str("toml");
                let json = String::from_str("json");
                if text == toml {
                    Ok(DocumentFormat::Toml)
                } else if text == json {
                    Ok(DocumentFormat::Json)
                } else {
                    Err(KcheckError::UnknownFileType(text))
                }
            },
        }
    }

    /// The format of the requirement document at `path`, by the extension
    /// of the path.
    ///
    /// Which part of a path is its extension is for the platform to say;
    /// whatever it is, the format is the one that it names.
    pub fn from_path(path: &str) -> (r: KcheckResult<DocumentFormat>)
        ensures
            exists|extension: Option<Seq<char>>|
                format_outcome(r) == #[trigger] format_of_extension(extension),
    {
        let extension = crate::util::path_extension(path);
        let r = Self::from_extension(extension);
        assert(format_outcome(r) == format_of_extension(extension.deep_view()));
        r
    }
}

/// A copy of what loading a document gave.
fn copy_load(load: &KcheckResult<KcheckConfig>) -> (r: KcheckResult<KcheckConfig>)
    ensures
        outcome(r) == outcome(*load),
{
    match load {
        Ok(document) => Ok(document.clone()),
        Err(error) => Err(error.clone()),
    }
}

/// A copy of what loading a list of documents gave.
pub(crate) fn copy_loads(list: &Vec<KcheckResult<KcheckConfig>>) -> (r: Vec<
    KcheckResult<KcheckConfig>,
>)
    ensures
        outcomes(r@) == outcomes(list@),
{
    let mut r: Vec<KcheckResult<KcheckConfig>> = Vec::new();
    let n = list.len();
    let mut i: usize = 0;
    while i < n
        invariant
            n == list@.len(),
            i <= n,
            r@.len() == i,
            forall|j: int| 0 <= j < i ==> outcome(r@[j]) == outcome(list@[j]),
        decreases n - i,
    {
        r.push(copy_load(&list[i]));
        i += 1;
    }
    assert(outcomes(r@) =~= outcomes(list@));
    r
}

/// A copy of a list of texts.
pub(crate) fn copy_texts(list: &Vec<String>) -> (r: Vec<String>)
    ensures
        r.deep_view() == list.deep_view(),
{
    let mut r: Vec<String> = Vec::new();
    let n = list.len();
    let mut i: usize = 0;
    while i < n
        invariant
            n == list@.len(),
            i <= n,
            r@.len() == i,
            forall|j: int| 0 <= j < i ==> r@[j]@ == list@[j]@,
        decreases n - i,
    {
        r.push(list[i].clone());
        i += 1;
    }
    assert(r.deep_view() =~= list.deep_view());
    r
}

/// Gathers what a [`KcheckConfig`] is built from: a name, options and
/// fragments given directly, and the requirement documents of the system
/// and of the user.
///
/// The builder reads no file. It says which files it wants (`sources`) and
/// takes what loading them gave (`documents`).
#[derive(Debug)]
pub struct KcheckConfigBuilder {
    name: Option<String>,
    kernel: Option<Vec<KconfigOption>>,
    fragment: Option<Vec<KcheckConfigFragment>>,
    use_sys_cfg: bool,
    user_cfg_files: Vec<String>,
    documents: Vec<KcheckResult<KcheckConfig>>,
}

impl View for KcheckConfigBuilder {
    type V = Gathering;

    closed spec fn view(&self) -> Gathering {
        Gathering {
            name: self.name.deep_view(),
            kernel: self.kernel.deep_view(),
            fragment: self.fragment.deep_view(),
            use_sys_cfg: self.use_sys_cfg,
            user_cfg_files: self.user_cfg_files.deep_view(),
            documents: outcomes(self.documents@),
        }
    }
}

impl Default for KcheckConfigBuilder {
    fn default() -> (r: Self)
        ensures
            r@ == Gathering::empty(),
    {
        let user_cfg_files: Vec<String> = Vec::new();
        let documents: Vec<KcheckResult<KcheckConfig>> = Vec::new();
        assert(user_cfg_files.deep_view() =~= Seq::empty());
        assert(outcomes(documents@) =~= Seq::empty());
        KcheckConfigBuilder {
            name: None,
            kernel: None,
            fragment: None,
            use_sys_cfg: false,
            user_cfg_files,
            documents,
        }
    }
}

impl Clone for KcheckConfigBuilder {
    fn clone(&self) -> (r: Self)
        ensures
            r@ == self@,
    {
        let kernel = match &self.kernel {
            Some(kernel) => Some(copy_options(kernel)),
            None => None,
        };
        let fragment = match &self.fragment {
            Some(fragment) => Some(copy_fragments(fragment)),
            None => None,
        };
        let documents = copy_loads(&self.documents);
        KcheckConfigBuilder {
            name: self.name.clone(),
            kernel,
            fragment,
            use_sys_cfg: self.use_sys_cfg,
            user_cfg_files: copy_texts(&self.user_cfg_files),
            documents,
        }
    }
}

impl KcheckConfigBuilder {
    /// Gives the document a name.
    pub fn name(self, name: &str) -> (r: Self)
        ensures
            r@ == (Gathering { name: Some(name@), ..self@ }),
    {
        let mut r = self;
        r.name = Some(String::from_str(name));
        r
    }

    /// Gives the options that stand outside any fragment.
    pub fn kernel(self, kernel: Vec<KconfigOption>) -> (r: Self)
        ensures
            r@ == (Gathering { kernel: Some(kernel.deep_view()), ..self@ }),
    {
        let mut r = self;
        r.kernel = Some(kernel);
        r
    }

    /// Gives the fragments.
    pub fn fragment(self, fragment: Vec<KcheckConfigFragment>) -> (r: Self)
        ensures
            r@ == (Gathering { fragment: Some(fragment.deep_view()), ..self@ }),
    {
        let mut r = self;
        r.fragment = Some(fragment);
        r
    }

    /// Asks for the requirement documents of the system.
    pub fn system(self) -> (r: Self)
        ensures
            r@ == (Gathering { use_sys_cfg: true, ..self@ }),
    {
        let mut r = self;
        r.use_sys_cfg = true;
        r
    }

    /// Asks for requirement documents of the user, by their paths.
    pub fn config_files(self, files: Vec<String>) -> (r: Self)
        ensures
            r@ == (Gathering {
                user_cfg_files: self@.user_cfg_files + files.deep_view(),
                ..self@
            }),
    {
        let mut r = self;
        let mut files = files;
        let ghost before = r.user_cfg_files.deep_view();
        let ghost more = files.deep_view();
        r.user_cfg_files.append(&mut files);
        assert(r.user_cfg_files.deep_view() =~= before + more);
        r
    }

    /// Hands in what loading the files of `sources` gave, in that order.
    pub fn documents(self, documents: Vec<KcheckResult<KcheckConfig>>) -> (r: Self)
        ensures
            r@ == (Gathering { documents: outcomes(documents@), ..self@ }),
    {
        let mut r = self;
        r.documents = documents;
        r
    }

    /// The paths of the files to load: the requirement documents of the
    /// system first, where they are asked for, then those of the user.
    pub fn sources(&self) -> (r: Vec<String>)
        ensures
            r.deep_view() == self@.files(),
    {
        let mut r: Vec<String> = Vec::new();
        if self.use_sys_cfg {
            r.push(String::from_str("/etc/kcheck.toml"));
            r.push(String::from_str("/etc/kcheck.json"));
        }
        assert(r.deep_view() =~= self@.system_files());
        let mut files = copy_texts(&self.user_cfg_files);
        let ghost more = files.deep_view();
        r.append(&mut files);
        assert(r.deep_view() =~= self@.system_files() + more);
        r
    }

    /// Builds the requirement document.
    pub fn build(self) -> (r: KcheckResult<KcheckConfig>)
        ensures
            outcome(r) == self@.build(),
    {
        let ghost plan = self@;
        let sources = self.sources();
        let first_user: usize = if self.use_sys_cfg {
            2
        } else {
            0
        };
        let n = sources.len();
        let given = self.documents.len();
        let mut i = first_user;
        while i < n
            invariant
                plan == self@,
                sources.deep_view() == plan.files(),
                n == sources@.len(),
                given == self.documents@.len(),
                first_user == plan.system_files().len(),
                first_user <= i <= n,
                forall|j: int| first_user <= j < i ==> !is_absent(#[trigger] plan.load(j)),
            decreases n - i,
        {
            let absent = if i < given {
                match &self.documents[i] {
                    Err(KcheckError::FileDoesNotExist(_)) => true,
                    _ => false,
                }
            } else {
                true
            };
            if absent {
                proof {
                    assert(plan.is_first_missing(i as int));
                    let chosen = choose|at: int| plan.is_first_missing(at);
                    if chosen < i {
                        assert(!is_absent(plan.load(chosen)));
                    } else if i < chosen {
                        assert(!is_absent(plan.load(i as int)));
                    }
                    assert(sources.deep_view()[i as int] == sources@[i as int]@);
                }
                return Err(KcheckError::FileDoesNotExist(sources[i].clone()));
            }
            i += 1;
        }
        assert(!exists|at: int| plan.is_first_missing(at));
        let mut all: Vec<KcheckResult<KcheckConfig>> = Vec::new();
        let mut i: usize = 0;
        while i < n
            invariant
                plan == self@,
                sources.deep_view() == plan.files(),
                n == sources@.len(),
                given == self.documents@.len(),
                i <= n,
                all@.len() == i,
                forall|j: int| 0 <= j < i ==> outcome(#[trigger] all@[j]) == plan.load(j),
            decreases n - i,
        {
            let load = if i < given {
                copy_load(&self.documents[i])
            } else {
                assert(sources.deep_view()[i as int] == sources@[i as int]@);
                Err(KcheckError::FileDoesNotExist(sources[i].clone()))
            };
            all.push(load);
            i += 1;
        }
        assert(outcomes(all@) =~= plan.loads());
        if self.name.is_some() || self.kernel.is_some() || self.fragment.is_some() {
            let direct = KcheckConfig {
                name: self.name,
                kernel: self.kernel,
                fragment: self.fragment,
            };
            let ghost before = all@;
            all.push(Ok(direct));
            assert(outcomes(all@) =~= outcomes(before).push(Ok(plan.direct())));
        }
        KcheckConfig::generate(all)
    }
}

} // verus!
