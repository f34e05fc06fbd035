//! A kernel configuration held as lines of text, the files it can come
//! from, and the builder that makes one from a file or from options given
//! directly.

use vstd::prelude::*;
use vstd::std_specs::cmp::PartialEqSpecImpl;
use vstd::std_specs::convert::FromSpecImpl;
use vstd::string::StringExecFns;
use crate::error::{outcome, Failure, KcheckError, KcheckResult};
use crate::kconfig::{KconfigState, State};
use crate::scanner::{lookup, render_line, rendered, scan};
use crate::text::{lines_of, split_lines};

verus! {

/// The mathematical value of a [`KernelConfigSource`].
pub enum Source {
    String,
    File(Seq<char>),
    Stdin,
}

/// Where the lines of a kernel config came from.
#[derive(Debug)]
pub enum KernelConfigSource {
    /// A text in memory.
    String,
    /// The file at this path.
    File(String),
    /// The standard input.
    Stdin,
}

impl View for KernelConfigSource {
    type V = Source;

    open spec fn view(&self) -> Source {
        match self {
            KernelConfigSource::String => Source::String,
            KernelConfigSource::File(path) => Source::File(path@),
            KernelConfigSource::Stdin => Source::Stdin,
        }
    }
}

impl Clone for KernelConfigSource {
    fn clone(&self) -> (r: Self)
        ensures
            r == *self,
    {
        match self {
            KernelConfigSource::String => KernelConfigSource::String,
            KernelConfigSource::File(path) => KernelConfigSource::File(path.clone()),
            KernelConfigSource::Stdin => KernelConfigSource::Stdin,
        }
    }
}

impl Default for KernelConfigSource {
    fn default() -> (r: Self)
        ensures
            r == KernelConfigSource::String,
    {
        KernelConfigSource::String
    }
}

impl From<String> for KernelConfigSource {
    fn from(path: String) -> (r: Self) {
        KernelConfigSource::File(path)
    }
}

impl FromSpecImpl<String> for KernelConfigSource {
    open spec fn obeys_from_spec() -> bool {
        true
    }

    open spec fn from_spec(path: String) -> Self {
        KernelConfigSource::File(path)
    }
}

impl PartialEq for KernelConfigSource {
    fn eq(&self, other: &Self) -> (r: bool) {
        match self {
            KernelConfigSource::String => matches!(other, KernelConfigSource::String),
            KernelConfigSource::File(a) => match other {
                KernelConfigSource::File(b) => *a == *b,
                _ => false,
            },
            KernelConfigSource::Stdin => matches!(other, KernelConfigSource::Stdin),
        }
    }
}

impl PartialEqSpecImpl for KernelConfigSource {
    open spec fn obeys_eq_spec() -> bool {
        true
    }

    open spec fn eq_spec(&self, other: &Self) -> bool {
        self@ == other@
    }
}

/// A kernel configuration: its lines, and where they came from.
#[derive(Debug)]
pub struct KernelConfig {
    src: KernelConfigSource,
    lines: Vec<String>,
}

/// The mathematical value of a [`KernelConfig`].
pub struct Kernel {
    /// Where the lines came from.
    pub source: Source,
    /// The lines, in order.
    pub lines: Seq<Seq<char>>,
}

impl View for KernelConfig {
    type V = Kernel;

    closed spec fn view(&self) -> Kernel {
        Kernel { source: self.src@, lines: self.lines.deep_view() }
    }
}

impl DeepView for KernelConfig {
    type V = Kernel;

    open spec fn deep_view(&self) -> Kernel {
        self@
    }
}

impl Clone for KernelConfig {
    fn clone(&self) -> (r: Self)
        ensures
            r@ == self@,
    {
        let lines = self.lines.clone();
        assert(lines.deep_view() =~= self.lines.deep_view());
        KernelConfig { src: self.src.clone(), lines }
    }
}

impl Default for KernelConfig {
    fn default() -> (r: Self)
        ensures
            r@ == (Kernel { source: Source::String, lines: Seq::empty() }),
    {
        let lines: Vec<String> = Vec::new();
        assert(lines.deep_view() =~= Seq::empty());
        KernelConfig { src: KernelConfigSource::String, lines }
    }
}

impl std::str::FromStr for KernelConfig {
    type Err = KcheckError;

    /// The kernel config that a text in memory holds: its lines, with no
    /// file behind them. Every text is a kernel config.
    fn from_str(s: &str) -> (r: Result<Self, Self::Err>)
        ensures
            outcome(r) == Ok::<Kernel, Failure>(
                Kernel { source: Source::String, lines: lines_of(s@) },
            ),
    {
        KernelConfig::from_str(s)
    }
}

impl KernelConfig {
    /// The kernel config that a text in memory holds.
    pub fn from_str(s: &str) -> (r: KcheckResult<Self>)
        ensures
            outcome(r) == Ok::<Kernel, Failure>(
                Kernel { source: Source::String, lines: lines_of(s@) },
            ),
    {
        Ok(KernelConfig { src: KernelConfigSource::String, lines: split_lines(s) })
    }

    /// Where the lines came from.
    pub fn src(&self) -> (r: KernelConfigSource)
        ensures
            r@ == self@.source,
    {
        self.src.clone()
    }

    /// The state of the option `option` in this kernel config.
    ///
    /// `Disabled` and `Enabled` are never returned: they are states to ask
    /// for, not states to be in.
    pub fn option(&self, option: &str) -> (r: KcheckResult<KconfigState>)
        ensures
            outcome(r) == lookup(self@.lines, option@),
            r is Ok ==> r->Ok_0@.is_concrete(),
    {
        scan(&self.lines, option)
    }

    /// Whether the option `desired_option` is in a state that meets
    /// `desired_state`. Where the state of the option cannot be told, it
    /// does not.
    pub fn check_option(&self, desired_option: &str, desired_state: KconfigState) -> (r: bool)
        ensures
            r == match lookup(self@.lines, desired_option@) {
                Ok(state) => desired_state@.satisfied_by(state),
                Err(_) => false,
            },
    {
        match self.option(desired_option) {
            Ok(state) => desired_state.check(state),
            Err(_) => false,
        }
    }
}

/// Whether a file is gzipped and has to be inflated before it is read.
#[derive(Clone, Copy, Debug, PartialEq, Eq, Structural)]
pub enum RequiresInflate {
    True,
    False,
}

impl Default for RequiresInflate {
    fn default() -> (r: Self)
        ensures
            r == RequiresInflate::False,
    {
        RequiresInflate::False
    }
}

impl RequiresInflate {
    /// A file has to be inflated where its extension is `gz`.
    pub open spec fn of_extension(extension: Option<Seq<char>>) -> RequiresInflate {
        if extension == Some("gz"@) {
            RequiresInflate::True
        } else {
            RequiresInflate::False
        }
    }

    /// Whether a file with this extension has to be inflated.
    pub fn for_extension(extension: &Option<String>) -> (r: RequiresInflate)
        ensures
            r == Self::of_extension(extension.deep_view()),
    {
        match extension {
            Some(text) => {
                let gz = String::from_str("gz");
                if *text == gz {
                    RequiresInflate::True
                } else {
                    RequiresInflate::False
                }
            },
            None => RequiresInflate::False,
        }
    }
}

/// The mathematical value of a [`KernelConfigFileInfo`].
pub struct FileInfo {
    pub path: Seq<char>,
    pub inflate: RequiresInflate,
}

/// A kernel config file: its path, and whether it has to be inflated.
#[derive(Debug)]
pub struct KernelConfigFileInfo(String, RequiresInflate);

impl View for KernelConfigFileInfo {
    type V = FileInfo;

    closed spec fn view(&self) -> FileInfo {
        FileInfo { path: self.0@, inflate: self.1 }
    }
}

impl DeepView for KernelConfigFileInfo {
    type V = FileInfo;

    open spec fn deep_view(&self) -> FileInfo {
        self@
    }
}

impl Default for KernelConfigFileInfo {
    fn default() -> (r: Self)
        ensures
            r@ == (FileInfo { path: Seq::empty(), inflate: RequiresInflate::False }),
    {
        KernelConfigFileInfo(String::new(), RequiresInflate::False)
    }
}

impl Clone for KernelConfigFileInfo {
    fn clone(&self) -> (r: Self)
        ensures
            r@ == self@,
    {
        KernelConfigFileInfo(self.0.clone(), self.1)
    }
}

/// The path of the kernel config that a running kernel offers, gzipped.
pub open spec fn proc_config_gz() -> Seq<char> {
    "/proc/config.gz"@
}

/// The path of the kernel config beside the boot image.
pub open spec fn boot_config() -> Seq<char> {
    "/boot/config"@
}

/// The path of the kernel config of the release `release`.
pub open spec fn boot_config_of(release: Seq<char>) -> Seq<char> {
    boot_config() + "-"@ + release
}

/// The message for a system that does not tell its release.
pub open spec fn no_release_message() -> Seq<char> {
    "Could not get release string from uname"@
}

/// The kernel config of the system, given which files exist and the
/// release of the running kernel.
///
/// The gzipped config of the running kernel comes first, then the config
/// beside the boot image, then the config of the release. The release is
/// needed only where the first two are absent.
pub open spec fn system_config(
    proc_config_gz_exists: bool,
    boot_config_exists: bool,
    release: Option<Seq<char>>,
    release_config_exists: bool,
) -> Result<FileInfo, Failure> {
    if proc_config_gz_exists {
        Ok(FileInfo { path: proc_config_gz(), inflate: RequiresInflate::True })
    } else if boot_config_exists {
        Ok(FileInfo { path: boot_config(), inflate: RequiresInflate::False })
    } else if release is None {
        Err(Failure::KernelConfigBuildError(no_release_message()))
    } else if release_config_exists {
        Ok(FileInfo { path: boot_config_of(release->0), inflate: RequiresInflate::False })
    } else {
        Err(Failure::KernelConfigNotFound)
    }
}

impl KernelConfigFileInfo {
    /// The file at `path`.
    pub fn new(path: String, inflate: RequiresInflate) -> (r: Self)
        ensures
            r@ == (FileInfo { path: path@, inflate }),
    {
        KernelConfigFileInfo(path, inflate)
    }

    /// The path of the file.
    pub fn path(&self) -> (r: String)
        ensures
            r@ == self@.path,
    {
        self.0.clone()
    }

    /// Whether the file has to be inflated.
    pub fn inflate(&self) -> (r: RequiresInflate)
        ensures
            r == self@.inflate,
    {
        self.1
    }

    /// The kernel config file at `path`, which exists or does not.
    ///
    /// There is a file exactly where `exists`. Whether it has to be
    /// inflated goes by the extension of the path.
    pub fn find_user_cfg(path: &str, exists: bool) -> (r: Option<Self>)
        ensures
            r is Some <==> exists,
            r is Some ==> r->0@.path == path@,
    {
        if exists {
            let extension = crate::util::path_extension(path);
            let inflate = RequiresInflate::for_extension(&extension);
            Some(KernelConfigFileInfo(String::from_str(path), inflate))
        } else {
            None
        }
    }

    /// The kernel config file at `path`, or the error that it does not
    /// exist.
    pub fn try_from_user(path: &str, exists: bool) -> (r: KcheckResult<Self>)
        ensures
            r is Ok <==> exists,
            r is Ok ==> r->Ok_0@.path == path@,
            r is Err ==> r->Err_0@ == Failure::FileDoesNotExist(path@),
    {
        match Self::find_user_cfg(path, exists) {
            Some(info) => Ok(info),
            None => Err(KcheckError::FileDoesNotExist(String::from_str(path))),
        }
    }

    /// The kernel config of the system among the two standard places,
    /// given which of them exist.
    pub fn find_system_cfg(proc_config_gz_exists: bool, boot_config_exists: bool) -> (r: Option<
        Self,
    >)
        ensures
            r is Some <==> proc_config_gz_exists || boot_config_exists,
            r is Some ==> Ok::<FileInfo, Failure>(r->0@) == system_config(
                proc_config_gz_exists,
                boot_config_exists,
                None,
                false,
            ),
    {
        if proc_config_gz_exists {
            Some(KernelConfigFileInfo(String::from_str("/proc/config.gz"), RequiresInflate::True))
        } else if boot_config_exists {
            Some(KernelConfigFileInfo(String::from_str("/boot/config"), RequiresInflate::False))
        } else {
            None
        }
    }

    /// The path of the kernel config of the release `release`.
    pub fn boot_config_release(release: &str) -> (r: String)
        ensures
            r@ == boot_config_of(release@),
    {
        let mut r = String::from_str("/boot/config");
        r.append("-");
        r.append(release);
        r
    }

    /// The kernel config of the release of the running kernel, given the
    /// release and whether that file exists.
    pub fn try_boot_config_release(release: Option<&str>, exists: bool) -> (r: KcheckResult<
        Option<Self>,
    >)
        ensures
            match r {
                Ok(Some(info)) => release is Some && exists && info@ == (FileInfo {
                    path: boot_config_of(release->0@),
                    inflate: RequiresInflate::False,
                }),
                Ok(None) => release is Some && !exists,
                Err(error) => release is None && error@ == Failure::KernelConfigBuildError(
                    no_release_message(),
                ),
            },
    {
        match release {
            Some(text) => {
                if exists {
                    let path = Self::boot_config_release(text);
                    Ok(Some(KernelConfigFileInfo(path, RequiresInflate::False)))
                } else {
                    Ok(None)
                }
            },
            None => Err(
                KcheckError::KernelConfigBuildError(
                    String::from_str("Could not get release string from uname"),
                ),
            ),
        }
    }

    /// The kernel config of the system, given which of its places exist
    /// and the release of the running kernel.
    pub fn try_from_system(
        proc_config_gz_exists: bool,
        boot_config_exists: bool,
        release: Option<&str>,
        release_config_exists: bool,
    ) -> (r: KcheckResult<Self>)
        ensures
            outcome(r) == system_config(
                proc_config_gz_exists,
                boot_config_exists,
                match release {
                    Some(text) => Some(text@),
                    None => None,
                },
                release_config_exists,
            ),
    {
        match Self::find_system_cfg(proc_config_gz_exists, boot_config_exists) {
            Some(info) => Ok(info),
            None => match Self::try_boot_config_release(release, release_config_exists) {
                Ok(Some(info)) => Ok(info),
                Ok(None) => Err(KcheckError::KernelConfigNotFound),
                Err(error) => Err(error),
            },
        }
    }
}

/// The text that a file holds: what it inflates to where it is gzipped,
/// else what its bytes encode. There is none where inflating fails or the
/// bytes are no text.
pub open spec fn file_text(inflate: RequiresInflate, contents: Seq<u8>) -> Option<Seq<char>> {
    match inflate {
        RequiresInflate::True => crate::util::gzip_text(contents),
        RequiresInflate::False => if vstd::utf8::valid_utf8(contents) {
            Some(vstd::utf8::decode_utf8(contents))
        } else {
            None
        },
    }
}

/// The message for options given together with a file.
pub open spec fn manual_with_file_message() -> Seq<char> {
    "Cannot set options manually when another builder method is used"@
}

/// The message for a builder asked for both the system's and a user's
/// kernel config.
pub open spec fn system_with_user_message() -> Seq<char> {
    "Both system and user config build methods are set"@
}

/// The message for a builder that was given nothing.
pub open spec fn nothing_given_message() -> Seq<char> {
    "No config file information found"@
}

/// The message for an option with a numeric value.
pub open spec fn numeric_value_message() -> Seq<char> {
    "Cannot set an option to a numeric value"@
}

/// The mathematical value of a [`KernelConfigBuilder`].
pub struct KernelPlan {
    /// The path of the kernel config that the user asked for.
    pub usr_cfg_file: Option<Seq<char>>,
    /// Whether the kernel config of the system is asked for.
    pub sys_cfg_flag: bool,
    /// The file that was handed in, with its contents.
    pub file: Option<(FileInfo, Seq<u8>)>,
    /// Whether options were given directly.
    pub manual: bool,
    /// Whether one of the options given directly had a numeric value.
    pub numeric: bool,
    /// The lines of the options given directly.
    pub lines: Seq<Seq<char>>,
}

impl KernelPlan {
    /// The builder that was given nothing.
    pub open spec fn empty() -> KernelPlan {
        KernelPlan {
            usr_cfg_file: None,
            sys_cfg_flag: false,
            file: None,
            manual: false,
            numeric: false,
            lines: Seq::empty(),
        }
    }

    /// This plan with one more option given directly.
    pub open spec fn with_option(self, symbol: Seq<char>, state: State) -> KernelPlan {
        KernelPlan {
            manual: true,
            numeric: self.numeric || state is Value,
            lines: match rendered(symbol, state) {
                Some(line) => self.lines.push(line),
                None => self.lines,
            },
            ..self
        }
    }

    /// This plan with more options given directly, in order.
    pub open spec fn with_options(self, options: Seq<(Seq<char>, State)>) -> KernelPlan
        decreases options.len(),
    {
        if options.len() == 0 {
            self
        } else {
            self.with_options(options.drop_last()).with_option(
                options.last().0,
                options.last().1,
            )
        }
    }

    /// Whether a file is part of the plan: asked for or handed in.
    pub open spec fn has_file_source(self) -> bool {
        self.sys_cfg_flag || self.usr_cfg_file is Some || self.file is Some
    }

    /// Why nothing can be built from the plan as it stands, if so.
    ///
    /// Options given directly exclude a file; the system's config excludes
    /// a user's; a file that was asked for has to be handed in; and
    /// something has to be given.
    pub open spec fn rejection(self) -> Option<Failure> {
        if self.numeric {
            Some(Failure::KernelConfigBuildError(numeric_value_message()))
        } else if self.manual && self.has_file_source() {
            Some(Failure::KernelConfigBuildError(manual_with_file_message()))
        } else if self.sys_cfg_flag && self.usr_cfg_file is Some {
            Some(Failure::KernelConfigBuildError(system_with_user_message()))
        } else if self.usr_cfg_file is Some && self.file is None {
            Some(Failure::FileDoesNotExist(self.usr_cfg_file->0))
        } else if self.sys_cfg_flag && self.file is None {
            Some(Failure::KernelConfigNotFound)
        } else if self.file is None && !self.manual {
            Some(Failure::KernelConfigBuildError(nothing_given_message()))
        } else {
            None
        }
    }
}

/// The kernel config that a file holds: the lines of its text, under the
/// file's path. There is none where the file holds no text.
pub open spec fn file_kernel(info: FileInfo, contents: Seq<u8>) -> Option<Kernel> {
    match file_text(info.inflate, contents) {
        Some(text) => Some(Kernel { source: Source::File(info.path), lines: lines_of(text) }),
        None => None,
    }
}

/// Whether `failure` is an error for a file that holds no text: an
/// `IoError`, and for a file that is not gzipped the one that says so.
pub open spec fn is_file_failure(info: FileInfo, failure: Failure) -> bool {
    &&& failure is IoError
    &&& info.inflate == RequiresInflate::False ==> failure == Failure::IoError(
        crate::util::not_utf8_message(),
    )
}

/// Whether `r` is what reading a kernel config from a file gives.
pub open spec fn read_from_file(
    info: FileInfo,
    contents: Seq<u8>,
    r: Result<Kernel, Failure>,
) -> bool {
    match file_kernel(info, contents) {
        Some(kernel) => r == Ok::<Kernel, Failure>(kernel),
        None => r is Err && is_file_failure(info, r->Err_0),
    }
}

impl KernelPlan {
    /// The kernel config that is built from the plan, where one is: from
    /// the file that was handed in, where there is one, and else from the
    /// options given directly.
    pub open spec fn built(self) -> Option<Kernel> {
        if self.rejection() is Some {
            None
        } else {
            match self.file {
                Some((info, contents)) => file_kernel(info, contents),
                None => Some(Kernel { source: Source::String, lines: self.lines }),
            }
        }
    }

    /// Whether `r` is what building from the plan gives: the kernel config
    /// where one is built; the reason where the plan is rejected; and else
    /// the error for a file that holds no text.
    pub open spec fn builds(self, r: Result<Kernel, Failure>) -> bool {
        match self.built() {
            Some(kernel) => r == Ok::<Kernel, Failure>(kernel),
            None => r is Err && match (self.rejection(), self.file) {
                (Some(failure), _) => r->Err_0 == failure,
                (None, Some((info, _))) => is_file_failure(info, r->Err_0),
                (None, None) => false,
            },
        }
    }
}

/// Gathers what a [`KernelConfig`] is built from: either options given
/// directly, or a file, that of the system or one of the user.
///
/// The builder reads no file. Which file exists is found out elsewhere;
/// the file and its contents are handed in with `file`.
#[derive(Debug)]
pub struct KernelConfigBuilder {
    usr_cfg_file: Option<String>,
    sys_cfg_flag: bool,
    file_info: Option<KernelConfigFileInfo>,
    contents: Vec<u8>,
    manual: bool,
    numeric: bool,
    lines: Vec<String>,
}

impl View for KernelConfigBuilder {
    type V = KernelPlan;

    closed spec fn view(&self) -> KernelPlan {
        KernelPlan {
            usr_cfg_file: self.usr_cfg_file.deep_view(),
            sys_cfg_flag: self.sys_cfg_flag,
            file: match self.file_info {
                Some(info) => Some((info@, self.contents@)),
                None => None,
            },
            manual: self.manual,
            numeric: self.numeric,
            lines: self.lines.deep_view(),
        }
    }
}

impl Default for KernelConfigBuilder {
    fn default() -> (r: Self)
        ensures
            r@ == KernelPlan::empty(),
    {
        let lines: Vec<String> = Vec::new();
        assert(lines.deep_view() =~= Seq::empty());
        KernelConfigBuilder {
            usr_cfg_file: None,
            sys_cfg_flag: false,
            file_info: None,
            contents: Vec::new(),
            manual: false,
            numeric: false,
            lines,
        }
    }
}

impl Clone for KernelConfigBuilder {
    fn clone(&self) -> (r: Self)
        ensures
            r@ == self@,
    {
        let file_info = match &self.file_info {
            Some(info) => Some(info.clone()),
            None => None,
        };
        let contents = self.contents.clone();
        assert(contents@ =~= self.contents@);
        let lines = self.lines.clone();
        assert(lines.deep_view() =~= self.lines.deep_view());
        KernelConfigBuilder {
            usr_cfg_file: self.usr_cfg_file.clone(),
            sys_cfg_flag: self.sys_cfg_flag,
            file_info,
            contents,
            manual: self.manual,
            numeric: self.numeric,
            lines,
        }
    }
}

/// The mathematical value of a list of options and their states.
pub open spec fn option_states(options: Seq<(&str, KconfigState)>) -> Seq<(Seq<char>, State)> {
    options.map_values(|option: (&str, KconfigState)| (option.0@, option.1@))
}

impl KernelConfigBuilder {
    /// Reads a kernel config from the contents of a file.
    pub fn try_from_file_info(info: KernelConfigFileInfo, contents: &[u8]) -> (r: KcheckResult<
        KernelConfig,
    >)
        ensures
            read_from_file(info@, contents@, outcome(r)),
    {
        let text = match info.1 {
            RequiresInflate::True => crate::util::inflate_gzip_file(contents),
            RequiresInflate::False => crate::util::file_contents_as_string(contents),
        };
        match text {
            Ok(text) => {
                let lines = split_lines(text.as_str());
                Ok(KernelConfig { src: KernelConfigSource::File(info.0), lines })
            },
            Err(error) => Err(error),
        }
    }

    /// Asks for the kernel config of the system.
    pub fn system(self) -> (r: Self)
        ensures
            r@ == (KernelPlan { sys_cfg_flag: true, ..self@ }),
    {
        let mut r = self;
        r.sys_cfg_flag = true;
        r
    }

    /// Asks for the kernel config at `path`.
    pub fn user(self, path: &str) -> (r: Self)
        ensures
            r@ == (KernelPlan { usr_cfg_file: Some(path@), ..self@ }),
    {
        let mut r = self;
        r.usr_cfg_file = Some(String::from_str(path));
        r
    }

    /// The path of the kernel config that the user asked for.
    pub fn user_file(&self) -> (r: Option<String>)
        ensures
            r.deep_view() == self@.usr_cfg_file,
    {
        self.usr_cfg_file.clone()
    }

    /// Whether the kernel config of the system is asked for.
    pub fn wants_system(&self) -> (r: bool)
        ensures
            r == self@.sys_cfg_flag,
    {
        self.sys_cfg_flag
    }

    /// Hands in the file that was asked for, with its contents.
    pub fn file(self, info: KernelConfigFileInfo, contents: Vec<u8>) -> (r: Self)
        ensures
            r@ == (KernelPlan { file: Some((info@, contents@)), ..self@ }),
    {
        let mut r = self;
        r.file_info = Some(info);
        r.contents = contents;
        r
    }

    /// Gives an option directly: the kernel config gets the line that says
    /// of `option` that it is in state `state`.
    ///
    /// An option that is not found adds no line. A numeric value cannot be
    /// written: with one, nothing can be built.
    pub fn option(self, option: &str, state: KconfigState) -> (r: Self)
        ensures
            r@ == self@.with_option(option@, state@),
    {
        let mut r = self;
        let ghost before = r.lines.deep_view();
        r.manual = true;
        match &state {
            KconfigState::Value(_) => {
                r.numeric = true;
            },
            _ => {},
        }
        match render_line(option, &state) {
            Some(line) => {
                r.lines.push(line);
                assert(r.lines.deep_view() =~= before.push(line@));
            },
            None => {},
        }
        r
    }

    /// Gives several options directly, in order.
    pub fn options(self, options: &[(&str, KconfigState)]) -> (r: Self)
        ensures
            r@ == self@.with_options(option_states(options@)),
    {
        let ghost start = self@;
        let ghost all = option_states(options@);
        let mut r = self;
        let n = options.len();
        let mut i: usize = 0;
        assert(all.take(0) =~= Seq::empty());
        while i < n
            invariant
                n == options@.len(),
                i <= n,
                all == option_states(options@),
                r@ == start.with_options(all.take(i as int)),
            decreases n - i,
        {
            let state = options[i].1.clone();
            proof {
                assert(all.take(i + 1).drop_last() =~= all.take(i as int));
                assert(all.take(i + 1).last() == all[i as int]);
            }
            r = r.option(options[i].0, state);
            i += 1;
        }
        assert(all.take(n as int) =~= all);
        r
    }

    /// Builds the kernel config, or says why there is none.
    pub fn build(self) -> (r: KcheckResult<KernelConfig>)
        ensures
            self@.builds(outcome(r)),
    {
        if self.numeric {
            return Err(
                KcheckError::KernelConfigBuildError(
                    String::from_str("Cannot set an option to a numeric value"),
                ),
            );
        }
        let has_file_source = self.sys_cfg_flag || self.usr_cfg_file.is_some()
            || self.file_info.is_some();
        if self.manual && has_file_source {
            return Err(
                KcheckError::KernelConfigBuildError(
                    String::from_str(
                        "Cannot set options manually when another builder method is used",
                    ),
                ),
            );
        }
        if self.sys_cfg_flag && self.usr_cfg_file.is_some() {
            return Err(
                KcheckError::KernelConfigBuildError(
                    String::from_str("Both system and user config build methods are set"),
                ),
            );
        }
        match self.file_info {
            Some(info) => Self::try_from_file_info(info, self.contents.as_slice()),
            None => {
                match self.usr_cfg_file {
                    Some(path) => {
                        return Err(KcheckError::FileDoesNotExist(path));
                    },
                    None => {},
                }
                if self.sys_cfg_flag {
                    Err(KcheckError::KernelConfigNotFound)
                } else if !self.manual {
                    Err(
                        KcheckError::KernelConfigBuildError(
                            String::from_str("No config file information found"),
                        ),
                    )
                } else {
                    Ok(KernelConfig { src: KernelConfigSource::String, lines: self.lines })
                }
            },
        }
    }
}

} // verus!
