//! The check itself: every requirement of a document is looked up in a
//! kernel config and judged.

use vstd::prelude::*;
use vstd::std_specs::convert::FromSpecImpl;
use vstd::string::StringExecFns;
use crate::config::{
    copy_loads, copy_texts, outcomes, Document, Gathering, KcheckConfig, KcheckConfigBuilder,
};
use crate::error::{outcome, Failure, KcheckResult};
use crate::kconfig::{KconfigState, State};
use crate::kernel::{
    FileInfo, Kernel, KernelConfig, KernelConfigBuilder, KernelConfigFileInfo, KernelPlan,
};
use crate::scanner::lookup;

verus! {

/// Whether a requirement is met.
#[derive(Clone, Copy, Debug, PartialEq, Eq, Structural)]
pub enum CheckResult {
    Pass,
    Fail,
}

impl CheckResult {
    /// `Pass` where the requirement is met, `Fail` where it is not.
    pub open spec fn of(met: bool) -> CheckResult {
        if met {
            CheckResult::Pass
        } else {
            CheckResult::Fail
        }
    }

    /// The text a result is shown as.
    pub open spec fn display(self) -> Seq<char> {
        match self {
            CheckResult::Pass => "Pass"@,
            CheckResult::Fail => "Fail"@,
        }
    }

    /// The text this result is shown as.
    pub fn to_string(&self) -> (r: String)
        ensures
            r@ == self.display(),
    {
        match self {
            CheckResult::Pass => String::from_str("Pass"),
            CheckResult::Fail => String::from_str("Fail"),
        }
    }
}

impl Default for CheckResult {
    fn default() -> (r: Self)
        ensures
            r == CheckResult::Fail,
    {
        CheckResult::Fail
    }
}

impl From<bool> for CheckResult {
    fn from(b: bool) -> (r: Self) {
        if b {
            CheckResult::Pass
        } else {
            CheckResult::Fail
        }
    }
}

impl FromSpecImpl<bool> for CheckResult {
    open spec fn obeys_from_spec() -> bool {
        true
    }

    open spec fn from_spec(b: bool) -> Self {
        CheckResult::of(b)
    }
}

/// The mathematical value of a [`KcheckConfigResult`].
pub struct Verdict {
    /// The symbol that was checked.
    pub name: Seq<char>,
    /// The state it was wanted in.
    pub desired_state: State,
    /// The state it was found in.
    pub kernel_state: State,
    /// Whether the state found meets the state wanted.
    pub result: CheckResult,
}

/// The verdict on a symbol that is wanted in one state and found in
/// another.
pub open spec fn judged(name: Seq<char>, desired: State, observed: State) -> Verdict {
    Verdict {
        name,
        desired_state: desired,
        kernel_state: observed,
        result: CheckResult::of(desired.satisfied_by(observed)),
    }
}

/// `at` is the first requirement of `list` whose symbol cannot be looked
/// up in `lines`.
pub open spec fn is_first_failure(
    lines: Seq<Seq<char>>,
    list: Seq<(Seq<char>, State)>,
    at: int,
) -> bool {
    &&& 0 <= at < list.len()
    &&& lookup(lines, list[at].0) is Err
    &&& forall|earlier: int| 0 <= earlier < at ==> lookup(lines, (#[trigger] list[earlier]).0) is Ok
}

/// What checking a list of requirements against a kernel config gives.
///
/// Where a symbol cannot be looked up, the error of the first such symbol;
/// else one verdict for each requirement, in the order of the list.
pub open spec fn check_all(lines: Seq<Seq<char>>, list: Seq<(Seq<char>, State)>) -> Result<
    Seq<Verdict>,
    Failure,
> {
    if exists|at: int| is_first_failure(lines, list, at) {
        let at = choose|at: int| is_first_failure(lines, list, at);
        Err(lookup(lines, list[at].0)->Err_0)
    } else {
        Ok(
            Seq::new(
                list.len(),
                |at: int| judged(list[at].0, list[at].1, lookup(lines, list[at].0)->Ok_0),
            ),
        )
    }
}

/// A check that succeeds gives one verdict for each requirement, in the
/// order of the list: the verdict at a position names the symbol at that
/// position, and passes exactly where the state found meets the state
/// wanted.
pub proof fn lemma_check_all_in_order(lines: Seq<Seq<char>>, list: Seq<(Seq<char>, State)>)
    requires
        check_all(lines, list) is Ok,
    ensures
        check_all(lines, list)->Ok_0.len() == list.len(),
        forall|at: int|
            0 <= at < list.len() ==> {
                let verdict = #[trigger] check_all(lines, list)->Ok_0[at];
                &&& verdict.name == list[at].0
                &&& verdict.desired_state == list[at].1
                &&& lookup(lines, list[at].0) == Ok::<State, Failure>(verdict.kernel_state)
                &&& verdict.result == CheckResult::Pass <==> list[at].1.satisfied_by(
                    verdict.kernel_state,
                )
            },
{
    assert forall|at: int| 0 <= at < list.len() implies lookup(lines, list[at].0) is Ok by {
        if lookup(lines, list[at].0) is Err {
            lemma_first_failure_exists(lines, list, at);
        }
    }
}

/// Where some symbol of a list cannot be looked up, there is a first one.
pub proof fn lemma_first_failure_exists(
    lines: Seq<Seq<char>>,
    list: Seq<(Seq<char>, State)>,
    at: int,
)
    requires
        0 <= at < list.len(),
        lookup(lines, list[at].0) is Err,
    ensures
        exists|first: int| is_first_failure(lines, list, first),
    decreases at,
{
    if exists|earlier: int| 0 <= earlier < at && lookup(lines, list[earlier].0) is Err {
        let earlier = choose|earlier: int|
            0 <= earlier < at && lookup(lines, list[earlier].0) is Err;
        lemma_first_failure_exists(lines, list, earlier);
    } else {
        assert(is_first_failure(lines, list, at));
    }
}

/// A check fails exactly where some symbol of the list cannot be looked
/// up.
pub proof fn lemma_check_all_fails(lines: Seq<Seq<char>>, list: Seq<(Seq<char>, State)>)
    ensures
        check_all(lines, list) is Err <==> exists|at: int|
            0 <= at < list.len() && lookup(lines, (#[trigger] list[at]).0) is Err,
{
    if exists|at: int| 0 <= at < list.len() && lookup(lines, (#[trigger] list[at]).0) is Err {
        let at = choose|at: int|
            0 <= at < list.len() && lookup(lines, (#[trigger] list[at]).0) is Err;
        lemma_first_failure_exists(lines, list, at);
    }
    if check_all(lines, list) is Err {
        let at = choose|at: int| is_first_failure(lines, list, at);
        assert(0 <= at < list.len() && lookup(lines, list[at].0) is Err);
    }
}

/// The result of checking one requirement.
#[derive(Debug)]
pub struct KcheckConfigResult {
    name: String,
    desired_state: KconfigState,
    kernel_state: KconfigState,
    result: CheckResult,
}

impl View for KcheckConfigResult {
    type V = Verdict;

    closed spec fn view(&self) -> Verdict {
        Verdict {
            name: self.name@,
            desired_state: self.desired_state@,
            kernel_state: self.kernel_state@,
            result: self.result,
        }
    }
}

impl DeepView for KcheckConfigResult {
    type V = Verdict;

    open spec fn deep_view(&self) -> Verdict {
        self@
    }
}

impl Clone for KcheckConfigResult {
    fn clone(&self) -> (r: Self)
        ensures
            r@ == self@,
    {
        KcheckConfigResult {
            name: self.name.clone(),
            desired_state: self.desired_state.clone(),
            kernel_state: self.kernel_state.clone(),
            result: self.result,
        }
    }
}

impl KcheckConfigResult {
    /// The symbol that was checked.
    pub fn name(&self) -> (r: String)
        ensures
            r@ == self@.name,
    {
        self.name.clone()
    }

    /// The state the symbol was wanted in.
    pub fn desired_state(&self) -> (r: KconfigState)
        ensures
            r@ == self@.desired_state,
    {
        self.desired_state.clone()
    }

    /// The state the symbol was found in.
    pub fn kernel_state(&self) -> (r: KconfigState)
        ensures
            r@ == self@.kernel_state,
    {
        self.kernel_state.clone()
    }

    /// Whether the state found meets the state wanted.
    pub fn result(&self) -> (r: CheckResult)
        ensures
            r == self@.result,
    {
        self.result
    }
}

/// The mathematical value of a [`Kcheck`].
pub struct Job {
    /// The requirements.
    pub config: Document,
    /// The kernel config they are checked against.
    pub kernel: Kernel,
}

/// A requirement document together with the kernel config to check it
/// against.
pub struct Kcheck {
    config: KcheckConfig,
    kernel: KernelConfig,
}

impl View for Kcheck {
    type V = Job;

    closed spec fn view(&self) -> Job {
        Job { config: self.config@, kernel: self.kernel@ }
    }
}

impl DeepView for Kcheck {
    type V = Job;

    open spec fn deep_view(&self) -> Job {
        self@
    }
}

impl Default for Kcheck {
    fn default() -> (r: Self)
        ensures
            r@.config == Document::empty(),
            r@.kernel == (Kernel { source: crate::kernel::Source::String, lines: Seq::empty() }),
    {
        Kcheck { config: KcheckConfig::default(), kernel: KernelConfig::default() }
    }
}

impl Kcheck {
    /// A check of `config` against `kernel`.
    pub fn new(config: KcheckConfig, kernel: KernelConfig) -> (r: Self)
        ensures
            r@ == (Job { config: config@, kernel: kernel@ }),
    {
        Kcheck { config, kernel }
    }

    /// Checks every requirement against the kernel config.
    ///
    /// The results stand in the order of the check list. A symbol that
    /// cannot be looked up ends the check with its error.
    pub fn perform_check(&self) -> (r: KcheckResult<Vec<KcheckConfigResult>>)
        ensures
            outcome(r) == check_all(self@.kernel.lines, self@.config.check_list()),
    {
        let list = self.config.clone().into_check_list();
        let ghost lines = self@.kernel.lines;
        let ghost wanted = self@.config.check_list();
        let mut results: Vec<KcheckConfigResult> = Vec::new();
        let n = list.len();
        let mut i: usize = 0;
        while i < n
            invariant
                lines == self@.kernel.lines,
                wanted == self@.config.check_list(),
                wanted == list.deep_view(),
                n == list@.len(),
                i <= n,
                results@.len() == i,
                forall|j: int| 0 <= j < i ==> lookup(lines, (#[trigger] wanted[j]).0) is Ok,
                forall|j: int|
                    0 <= j < i ==> (#[trigger] results@[j])@ == judged(
                        wanted[j].0,
                        wanted[j].1,
                        lookup(lines, wanted[j].0)->Ok_0,
                    ),
            decreases n - i,
        {
            let name = list[i].0.clone();
            let desired_state = list[i].1.clone();
            assert(wanted[i as int] == (list@[i as int].0@, list@[i as int].1@));
            match self.kernel.option(name.as_str()) {
                Ok(kernel_state) => {
                    let met = desired_state.check(kernel_state.clone());
                    let result = if met {
                        CheckResult::Pass
                    } else {
                        CheckResult::Fail
                    };
                    results.push(KcheckConfigResult { name, desired_state, kernel_state, result });
                },
                Err(error) => {
                    proof {
                        assert(is_first_failure(lines, wanted, i as int));
                        let chosen = choose|at: int| is_first_failure(lines, wanted, at);
                        if chosen < i {
                            assert(lookup(lines, wanted[chosen].0) is Ok);
                        } else if i < chosen {
                            assert(lookup(lines, wanted[i as int].0) is Ok);
                        }
                    }
                    return Err(error);
                },
            }
            i += 1;
        }
        proof {
            assert(!exists|at: int| is_first_failure(lines, wanted, at));
            assert(results.deep_view() =~= check_all(lines, wanted)->Ok_0);
        }
        Ok(results)
    }
}

/// The mathematical value of a [`KcheckBuilder`].
pub struct Setup {
    /// Whether the kernel config of the system is asked for.
    pub use_system_kernel: bool,
    /// The paths of the kernel configs that the user asked for.
    pub user_kernel_files: Seq<Seq<char>>,
    /// Whether the requirement documents of the system are asked for.
    pub use_system_config: bool,
    /// The paths of the requirement documents that the user asked for.
    pub user_config_files: Seq<Seq<char>>,
    /// The kernel config file that was handed in, with its contents.
    pub kernel_file: Option<(FileInfo, Seq<u8>)>,
    /// What loading the requirement documents gave.
    pub documents: Seq<Result<Document, Failure>>,
}

impl Setup {
    /// The builder that was given nothing.
    pub open spec fn empty() -> Setup {
        Setup {
            use_system_kernel: false,
            user_kernel_files: Seq::empty(),
            use_system_config: false,
            user_config_files: Seq::empty(),
            kernel_file: None,
            documents: Seq::empty(),
        }
    }

    /// What the kernel config is built from. Of several kernel configs of
    /// the user the last one counts.
    pub open spec fn kernel_plan(self) -> KernelPlan {
        KernelPlan {
            usr_cfg_file: if self.user_kernel_files.len() > 0 {
                Some(self.user_kernel_files.last())
            } else {
                None
            },
            sys_cfg_flag: self.use_system_kernel,
            file: self.kernel_file,
            ..KernelPlan::empty()
        }
    }

    /// What the requirement document is built from.
    pub open spec fn gathering(self) -> Gathering {
        Gathering {
            use_sys_cfg: self.use_system_config,
            user_cfg_files: self.user_config_files,
            documents: self.documents,
            ..Gathering::empty()
        }
    }

    /// Whether `r` is what the builder builds: the kernel config is built
    /// first, then the requirement document, and the first error ends the
    /// build.
    pub open spec fn builds(self, r: Result<Job, Failure>) -> bool {
        match self.kernel_plan().built() {
            None => r is Err && self.kernel_plan().builds(Err(r->Err_0)),
            Some(kernel) => match self.gathering().build() {
                Err(failure) => r == Err::<Job, Failure>(failure),
                Ok(config) => r == Ok::<Job, Failure>(Job { config, kernel }),
            },
        }
    }
}

/// Gathers what a [`Kcheck`] is built from: the kernel config of the
/// system or of the user, and the requirement documents of the system and
/// of the user.
///
/// The builder reads no file: the kernel config file and what loading the
/// requirement documents gave are handed in.
#[derive(Debug)]
pub struct KcheckBuilder {
    use_system_kernel: bool,
    user_kernel_files: Vec<String>,
    use_system_config: bool,
    user_config_files: Vec<String>,
    kernel_file: Option<KernelConfigFileInfo>,
    kernel_contents: Vec<u8>,
    documents: Vec<KcheckResult<KcheckConfig>>,
}

impl View for KcheckBuilder {
    type V = Setup;

    closed spec fn view(&self) -> Setup {
        Setup {
            use_system_kernel: self.use_system_kernel,
            user_kernel_files: self.user_kernel_files.deep_view(),
            use_system_config: self.use_system_config,
            user_config_files: self.user_config_files.deep_view(),
            kernel_file: match self.kernel_file {
                Some(info) => Some((info@, self.kernel_contents@)),
                None => None,
            },
            documents: outcomes(self.documents@),
        }
    }
}

impl Default for KcheckBuilder {
    fn default() -> (r: Self)
        ensures
            r@ == Setup::empty(),
    {
        let user_kernel_files: Vec<String> = Vec::new();
        let user_config_files: Vec<String> = Vec::new();
        let documents: Vec<KcheckResult<KcheckConfig>> = Vec::new();
        assert(user_kernel_files.deep_view() =~= Seq::empty());
        assert(user_config_files.deep_view() =~= Seq::empty());
        assert(outcomes(documents@) =~= Seq::empty());
        KcheckBuilder {
            use_system_kernel: false,
            user_kernel_files,
            use_system_config: false,
            user_config_files,
            kernel_file: None,
            kernel_contents: Vec::new(),
            documents,
        }
    }
}

impl Clone for KcheckBuilder {
    fn clone(&self) -> (r: Self)
        ensures
            r@ == self@,
    {
        let kernel_file = match &self.kernel_file {
            Some(info) => Some(info.clone()),
            None => None,
        };
        let kernel_contents = self.kernel_contents.clone();
        assert(kernel_contents@ =~= self.kernel_contents@);
        KcheckBuilder {
            use_system_kernel: self.use_system_kernel,
            user_kernel_files: copy_texts(&self.user_kernel_files),
            use_system_config: self.use_system_config,
            user_config_files: copy_texts(&self.user_config_files),
            kernel_file,
            kernel_contents,
            documents: copy_loads(&self.documents),
        }
    }
}

impl KcheckBuilder {
    /// Asks for the kernel config of the system.
    pub fn system_kernel(self) -> (r: Self)
        ensures
            r@ == (Setup { use_system_kernel: true, ..self@ }),
    {
        let mut r = self;
        r.use_system_kernel = true;
        r
    }

    /// Asks for kernel configs of the user, by their paths.
    pub fn kernel_fragments(self, files: Vec<String>) -> (r: Self)
        ensures
            r@ == (Setup {
                user_kernel_files: self@.user_kernel_files + files.deep_view(),
                ..self@
            }),
    {
        let mut r = self;
        let mut files = files;
        let ghost before = r.user_kernel_files.deep_view();
        let ghost more = files.deep_view();
        r.user_kernel_files.append(&mut files);
        assert(r.user_kernel_files.deep_view() =~= before + more);
        r
    }

    /// Asks for the requirement documents of the system.
    pub fn system_config(self) -> (r: Self)
        ensures
            r@ == (Setup { use_system_config: true, ..self@ }),
    {
        let mut r = self;
        r.use_system_config = true;
        r
    }

    /// Asks for requirement documents of the user, by their paths.
    pub fn config_fragments(self, files: Vec<String>) -> (r: Self)
        ensures
            r@ == (Setup {
                user_config_files: self@.user_config_files + files.deep_view(),
                ..self@
            }),
    {
        let mut r = self;
        let mut files = files;
        let ghost before = r.user_config_files.deep_view();
        let ghost more = files.deep_view();
        r.user_config_files.append(&mut files);
        assert(r.user_config_files.deep_view() =~= before + more);
        r
    }

    /// Hands in the kernel config file that was asked for, with its
    /// contents.
    pub fn kernel_file(self, info: KernelConfigFileInfo, contents: Vec<u8>) -> (r: Self)
        ensures
            r@ == (Setup { kernel_file: Some((info@, contents@)), ..self@ }),
    {
        let mut r = self;
        r.kernel_file = Some(info);
        r.kernel_contents = contents;
        r
    }

    /// Hands in what loading the requirement documents gave, in the order
    /// in which the builder of the document names them.
    pub fn config_documents(self, documents: Vec<KcheckResult<KcheckConfig>>) -> (r: Self)
        ensures
            r@ == (Setup { documents: outcomes(documents@), ..self@ }),
    {
        let mut r = self;
        r.documents = documents;
        r
    }

    /// The path of the kernel config of the user that counts: the last
    /// one that was asked for.
    pub fn kernel_path(&self) -> (r: Option<String>)
        ensures
            r.deep_view() == self@.kernel_plan().usr_cfg_file,
    {
        let n = self.user_kernel_files.len();
        if n > 0 {
            assert(self.user_kernel_files.deep_view().last() == self.user_kernel_files@[n - 1]@);
            Some(self.user_kernel_files[n - 1].clone())
        } else {
            None
        }
    }

    /// Whether the kernel config of the system is asked for.
    pub fn wants_system_kernel(&self) -> (r: bool)
        ensures
            r == self@.use_system_kernel,
    {
        self.use_system_kernel
    }

    /// The paths of the requirement documents to load, in order.
    pub fn config_sources(&self) -> (r: Vec<String>)
        ensures
            r.deep_view() == self@.gathering().files(),
    {
        let mut builder = KcheckConfigBuilder::default();
        if self.use_system_config {
            builder = builder.system();
        }
        builder = builder.config_files(copy_texts(&self.user_config_files));
        assert(builder@.user_cfg_files =~= self@.user_config_files);
        builder.sources()
    }

    /// Builds the check, or says why there is none.
    pub fn build(self) -> (r: KcheckResult<Kcheck>)
        ensures
            self@.builds(outcome(r)),
    {
        let ghost setup = self@;
        let path = self.kernel_path();
        let mut kernel_builder = KernelConfigBuilder::default();
        if self.use_system_kernel {
            kernel_builder = kernel_builder.system();
        }
        match path {
            Some(path) => {
                kernel_builder = kernel_builder.user(path.as_str());
            },
            None => {},
        }
        match self.kernel_file {
            Some(info) => {
                kernel_builder = kernel_builder.file(info, self.kernel_contents);
            },
            None => {},
        }
        assert(kernel_builder@ == setup.kernel_plan());
        let kernel = match kernel_builder.build() {
            Ok(kernel) => kernel,
            Err(error) => {
                return Err(error);
            },
        };
        let mut config_builder = KcheckConfigBuilder::default();
        if self.use_system_config {
            config_builder = config_builder.system();
        }
        config_builder = config_builder.config_files(self.user_config_files).documents(
            self.documents,
        );
        assert(config_builder@.user_cfg_files =~= setup.user_config_files);
        assert(config_builder@ == setup.gathering());
        match config_builder.build() {
            Ok(config) => Ok(Kcheck::new(config, kernel)),
            Err(error) => Err(error),
        }
    }
}

} // verus!
