//! One repository handle for every tool: finds out which tool manages a
//! directory, and from then on passes every question to that tool's driver.
use crate::adapter::git;
use crate::adapter::hg;
use crate::adapter::jj;
use crate::cmd::{lossy_text, transcript_of, CmdResult, InvocationView, LossyView, Outcome};
use crate::repo::{
    clean_from,
    expect_lossy,
    health_plan,
    not_clean,
    probe_plan,
    probe_verdict,
    rest_of,
    result_of,
    step_of,
    verdict_of,
    Driver,
    DriverError,
    DriverErrorView,
    HistoryRef,
    HistoryRefId,
    HistoryRefName,
    QueryDir,
    Step,
    StepView,
    Validator,
    VcsAvailable,
    ERROR_REPO_NOT_DIRTY,
};
use crate::text::{decimal, decimal_of, lines_of, without_first};
use vstd::prelude::*;

verus! {

/// The tools that the library knows.
#[derive(Debug, Clone, Copy, PartialEq, Eq, Structural)]
pub enum VcsBrand {
    Git,
    Mercurial,
    Jujutsu,
}

impl VcsBrand {
    /// Every brand, in the order in which a directory is tried against
    /// them: Git first, then Mercurial, then Jujutsu. A directory that two
    /// tools manage together goes to the one that comes first.
    pub open spec fn probe_order() -> Seq<VcsBrand> {
        seq![VcsBrand::Git, VcsBrand::Mercurial, VcsBrand::Jujutsu]
    }

    /// Every brand, in the order in which a directory is tried against them.
    pub fn all() -> (brands: Vec<VcsBrand>)
        ensures
            brands@ == Self::probe_order(),
    {
        let mut brands: Vec<VcsBrand> = Vec::new();
        brands.push(VcsBrand::Git);
        brands.push(VcsBrand::Mercurial);
        brands.push(VcsBrand::Jujutsu);
        brands
    }

    pub open spec fn name_view(self) -> Seq<char> {
        match self {
            VcsBrand::Git => "Git"@,
            VcsBrand::Mercurial => "Mercurial"@,
            VcsBrand::Jujutsu => "Jujutsu"@,
        }
    }

    /// The name of the brand.
    pub fn as_ref(&self) -> (name: &'static str)
        ensures
            name@ == self.name_view(),
    {
        match self {
            VcsBrand::Git => "Git",
            VcsBrand::Mercurial => "Mercurial",
            VcsBrand::Jujutsu => "Jujutsu",
        }
    }

    /// The command that succeeds exactly in a directory that this brand
    /// manages.
    pub open spec fn probe_cmd(self, dir: Seq<char>) -> InvocationView {
        match self {
            VcsBrand::Git => git::Loader.probe_cmd(dir),
            VcsBrand::Mercurial => hg::Loader.probe_cmd(dir),
            VcsBrand::Jujutsu => jj::Loader.probe_cmd(dir),
        }
    }

    pub open spec fn probe_context(self) -> Seq<char> {
        match self {
            VcsBrand::Git => git::Loader.probe_context(),
            VcsBrand::Mercurial => hg::Loader.probe_context(),
            VcsBrand::Jujutsu => jj::Loader.probe_context(),
        }
    }

    /// The command by which this brand's tool reports its version.
    pub open spec fn health_cmd(self) -> InvocationView {
        match self {
            VcsBrand::Git => git::Loader.health_cmd(),
            VcsBrand::Mercurial => hg::Loader.health_cmd(),
            VcsBrand::Jujutsu => jj::Loader.health_cmd(),
        }
    }

    pub open spec fn health_context(self) -> Seq<char> {
        match self {
            VcsBrand::Git => git::Loader.health_context(),
            VcsBrand::Mercurial => hg::Loader.health_context(),
            VcsBrand::Jujutsu => jj::Loader.health_context(),
        }
    }
}

/// The driver of one of the brands.
#[derive(Debug, PartialEq, Eq)]
pub enum Adapter {
    Git(git::Repo),
    Mercurial(hg::Repo),
    Jujutsu(jj::Repo),
}

impl Adapter {
    pub open spec fn brand(self) -> VcsBrand {
        match self {
            Adapter::Git(_) => VcsBrand::Git,
            Adapter::Mercurial(_) => VcsBrand::Mercurial,
            Adapter::Jujutsu(_) => VcsBrand::Jujutsu,
        }
    }

    pub open spec fn dir_view(self) -> Seq<char> {
        match self {
            Adapter::Git(repo) => repo@,
            Adapter::Mercurial(repo) => repo@,
            Adapter::Jujutsu(repo) => repo@,
        }
    }
}

/// A directory that one of the tools manages, whichever it is. It is made
/// once, by [`Repo::new_driver`], keeps nothing but the brand and the driver
/// bound to the directory, and asks the tool anew for every answer.
#[derive(Debug, PartialEq, Eq)]
pub struct Repo {
    pub brand: VcsBrand,
    pub adapter: Adapter,
}

pub struct RepoView {
    pub brand: VcsBrand,
    pub dir: Seq<char>,
}

impl View for Repo {
    type V = RepoView;

    open spec fn view(&self) -> RepoView {
        RepoView { brand: self.brand, dir: self.adapter.dir_view() }
    }
}

impl DeepView for Repo {
    type V = RepoView;

    open spec fn deep_view(&self) -> RepoView {
        self@
    }
}

// ---------------------------------------------------------------------------
// Detection
// ---------------------------------------------------------------------------
/// The names of `brands`, with a comma and a space between neighbours.
pub open spec fn names_of(brands: Seq<VcsBrand>) -> Seq<char>
    decreases brands.len(),
{
    if brands.len() == 0 {
        Seq::empty()
    } else if brands.len() == 1 {
        brands[0].name_view()
    } else {
        names_of(brands.drop_last()) + ", "@ + brands.last().name_view()
    }
}

/// What is reported of a directory that no brand claims: how many brands
/// were tried, and which, in the order in which they were.
pub open spec fn unknown_brand_message() -> Seq<char> {
    "if dir is a VCS, it's of an unknown brand (tried these "@ + decimal_of(
        VcsBrand::probe_order().len(),
    ) + ": "@ + names_of(VcsBrand::probe_order()) + ")"@
}

/// Where detection stands when the brands before number `next` have all
/// declined: the brands are tried in order against the outcomes of their
/// probes; the first whose probe succeeded is the answer, and the first
/// probe that could not be started is the failure. Nothing behind either is
/// looked at. If every brand declines, no brand is known for the directory.
pub open spec fn detect_from(dir: Seq<char>, seen: Seq<Outcome>, next: int) -> StepView<
    Result<RepoView, DriverErrorView>,
>
    decreases VcsBrand::probe_order().len() - next,
{
    let order = VcsBrand::probe_order();
    if next < 0 || next >= order.len() {
        StepView::Done {
            answer: Err(DriverErrorView::Unknown(unknown_brand_message())),
            read: order.len(),
        }
    } else if seen.len() <= next {
        StepView::Run(order[next].probe_cmd(dir))
    } else {
        match probe_verdict(order[next].probe_context(), seen[next]) {
            Err(e) => StepView::Done { answer: Err(e), read: (next + 1) as nat },
            Ok(true) => StepView::Done {
                answer: Ok(RepoView { brand: order[next], dir }),
                read: (next + 1) as nat,
            },
            Ok(false) => detect_from(dir, seen, next + 1),
        }
    }
}

/// Where detection stands after `seen`.
pub open spec fn detect(dir: Seq<char>, seen: Seq<Outcome>) -> StepView<
    Result<RepoView, DriverErrorView>,
> {
    detect_from(dir, seen, 0)
}

impl Repo {
    /// Whether the brand on the handle is that of the driver in it.
    pub open spec fn wf(&self) -> bool {
        self.brand == self.adapter.brand()
    }

    /// Asks the validator of `brand` whether its tool manages `dir`.
    pub fn probe(brand: VcsBrand, dir: QueryDir, seen: &[CmdResult]) -> (step: Step<
        Result<Option<Adapter>, DriverError>,
    >)
        ensures
            verdict_of(step) == probe_plan(
                brand.probe_cmd(dir@),
                brand.probe_context(),
                transcript_of(seen@),
            ),
            step matches Step::Done { answer: Ok(Some(adapter)), .. } ==> adapter.brand() == brand
                && adapter.dir_view() == dir@,
    {
        match brand {
            VcsBrand::Git => match git::Loader.new_driver(dir, seen) {
                Step::Run(cmd) => Step::Run(cmd),
                Step::Done { answer: Ok(Some(repo)), read } => Step::Done {
                    answer: Ok(Some(Adapter::Git(repo))),
                    read,
                },
                Step::Done { answer: Ok(None), read } => Step::Done { answer: Ok(None), read },
                Step::Done { answer: Err(e), read } => Step::Done { answer: Err(e), read },
            },
            VcsBrand::Mercurial => match hg::Loader.new_driver(dir, seen) {
                Step::Run(cmd) => Step::Run(cmd),
                Step::Done { answer: Ok(Some(repo)), read } => Step::Done {
                    answer: Ok(Some(Adapter::Mercurial(repo))),
                    read,
                },
                Step::Done { answer: Ok(None), read } => Step::Done { answer: Ok(None), read },
                Step::Done { answer: Err(e), read } => Step::Done { answer: Err(e), read },
            },
            VcsBrand::Jujutsu => match jj::Loader.new_driver(dir, seen) {
                Step::Run(cmd) => Step::Run(cmd),
                Step::Done { answer: Ok(Some(repo)), read } => Step::Done {
                    answer: Ok(Some(Adapter::Jujutsu(repo))),
                    read,
                },
                Step::Done { answer: Ok(None), read } => Step::Done { answer: Ok(None), read },
                Step::Done { answer: Err(e), read } => Step::Done { answer: Err(e), read },
            },
        }
    }

    /// The failure that says that no brand claims the directory.
    pub fn unknown_brand() -> (e: DriverError)
        ensures
            e@ == DriverErrorView::Unknown(unknown_brand_message()),
    {
        let brands = VcsBrand::all();
        let mut names = String::new();
        let mut i: usize = 0;
        while i < brands.len()
            invariant
                i <= brands.len(),
                brands@ == VcsBrand::probe_order(),
                names@ == names_of(brands@.take(i as int)),
            decreases brands.len() - i,
        {
            if i > 0 {
                names.append(", ");
            }
            names.append(brands[i].as_ref());
            assert(brands@.take(i + 1).drop_last() == brands@.take(i as int));
            i += 1;
        }
        assert(brands@.take(brands.len() as int) == brands@);
        let mut msg = "if dir is a VCS, it's of an unknown brand (tried these ".to_owned();
        msg.append(decimal(brands.len()).as_str());
        msg.append(": ");
        msg.append(names.as_str());
        msg.append(")");
        DriverError::Unknown(msg)
    }

    /// Short for [`Repo::new_driver`].
    pub fn new(dir: &QueryDir, seen: &[CmdResult]) -> (step: Step<Result<Self, DriverError>>)
        ensures
            step_of(step) == detect(dir@, transcript_of(seen@)),
            step_of(step).reads() <= seen.len(),
            step matches Step::Done { answer: Ok(repo), .. } ==> repo.wf(),
    {
        Self::new_driver(dir, seen)
    }

    /// Finds out which tool manages `dir`, and gives the handle through
    /// which every further question about `dir` goes: see [`detect`]. `seen`
    /// holds the outcomes of the probes run so far, in the order in which
    /// they were asked for.
    pub fn new_driver(dir: &QueryDir, seen: &[CmdResult]) -> (step: Step<Result<Self, DriverError>>)
        ensures
            step_of(step) == detect(dir@, transcript_of(seen@)),
            step_of(step).reads() <= seen.len(),
            step matches Step::Done { answer: Ok(repo), .. } ==> repo.wf(),
    {
        let brands = VcsBrand::all();
        let mut i: usize = 0;
        while i < brands.len()
            invariant
                i <= brands.len(),
                brands@ == VcsBrand::probe_order(),
                i <= seen.len(),
                detect(dir@, transcript_of(seen@)) == detect_from(
                    dir@,
                    transcript_of(seen@),
                    i as int,
                ),
            decreases brands.len() - i,
        {
            let current_attempt = brands[i];
            match Self::probe(current_attempt, dir.clone(), rest_of(seen, i)) {
                Step::Run(cmd) => {
                    return Step::Run(cmd);
                },
                Step::Done { answer: Err(e), read } => {
                    return Step::Done { answer: Err(e), read: i + 1 };
                },
                Step::Done { answer: Ok(Some(adapter)), read } => {
                    return Step::Done {
                        answer: Ok(Self { brand: current_attempt, adapter }),
                        read: i + 1,
                    };
                },
                Step::Done { answer: Ok(None), read } => {},
            }
            i += 1;
        }
        Step::Done { answer: Err(Self::unknown_brand()), read: brands.len() }
    }
}

// ---------------------------------------------------------------------------
// Health
// ---------------------------------------------------------------------------
/// Whether the tool of one brand can be run: what it says of itself, or why
/// it could not be asked.
#[derive(Debug, PartialEq, Eq)]
pub struct VcsHealth {
    pub brand: VcsBrand,
    pub health: Result<VcsAvailable, DriverError>,
}

pub struct VcsHealthView {
    pub brand: VcsBrand,
    pub health: Result<LossyView, DriverErrorView>,
}

impl View for VcsHealth {
    type V = VcsHealthView;

    open spec fn view(&self) -> VcsHealthView {
        VcsHealthView { brand: self.brand, health: result_of(self.health) }
    }
}

impl DeepView for VcsHealth {
    type V = VcsHealthView;

    open spec fn deep_view(&self) -> VcsHealthView {
        self@
    }
}

/// The report on the brand with number `i`, from the outcome with the
/// same number.
pub open spec fn health_of(seen: Seq<Outcome>, i: int) -> VcsHealthView {
    let brand = VcsBrand::probe_order()[i];
    VcsHealthView { brand, health: expect_lossy(brand.health_context(), seen[i]) }
}

/// Where the health check stands after `seen`: every brand is asked, in
/// order, whatever the brands before it answered, and the report holds one
/// entry for each.
pub open spec fn health_check(seen: Seq<Outcome>) -> StepView<Seq<VcsHealthView>> {
    let order = VcsBrand::probe_order();
    if seen.len() < order.len() {
        StepView::Run(order[seen.len() as int].health_cmd())
    } else {
        StepView::Done {
            answer: Seq::new(order.len(), |i: int| health_of(seen, i)),
            read: order.len(),
        }
    }
}

/// A step of the health check as mathematics.
pub open spec fn report_of(step: Step<Vec<VcsHealth>>) -> StepView<Seq<VcsHealthView>> {
    match step {
        Step::Run(cmd) => StepView::Run(cmd@),
        Step::Done { answer, read } => StepView::Done {
            answer: answer.deep_view(),
            read: read as nat,
        },
    }
}

/// Asks the validator of `brand` whether its tool can be run.
pub fn check_brand(brand: VcsBrand, seen: &[CmdResult]) -> (step: Step<
    Result<VcsAvailable, DriverError>,
>)
    ensures
        step_of(step) == health_plan(
            brand.health_cmd(),
            brand.health_context(),
            transcript_of(seen@),
        ),
{
    match brand {
        VcsBrand::Git => git::Loader.check_health(seen),
        VcsBrand::Mercurial => hg::Loader.check_health(seen),
        VcsBrand::Jujutsu => jj::Loader.check_health(seen),
    }
}

/// The health reports of all brands: see [`health_check`].
pub fn check_health(seen: &[CmdResult]) -> (step: Step<Vec<VcsHealth>>)
    ensures
        report_of(step) == health_check(transcript_of(seen@)),
{
    let brands = VcsBrand::all();
    let mut reports: Vec<VcsHealth> = Vec::new();
    let mut i: usize = 0;
    while i < brands.len()
        invariant
            i <= brands.len(),
            i <= seen.len(),
            brands@ == VcsBrand::probe_order(),
            reports.len() == i,
            forall|j: int| 0 <= j < i ==> reports@[j]@ == health_of(transcript_of(seen@), j),
        decreases brands.len() - i,
    {
        let brand = brands[i];
        match check_brand(brand, rest_of(seen, i)) {
            Step::Run(cmd) => {
                return Step::Run(cmd);
            },
            Step::Done { answer: health, read } => {
                reports.push(VcsHealth { brand, health });
            },
        }
        i += 1;
    }
    assert(reports.deep_view() == Seq::new(3, |i: int| health_of(transcript_of(seen@), i)));
    Step::Done { answer: reports, read: brands.len() }
}

// ---------------------------------------------------------------------------
// Delegation
// ---------------------------------------------------------------------------
/// Where the question for the top-level directory stands, for a directory
/// `dir` that `brand` manages.
pub open spec fn root_plan(brand: VcsBrand, dir: Seq<char>, seen: Seq<Outcome>) -> StepView<
    Result<Seq<char>, DriverErrorView>,
> {
    match brand {
        VcsBrand::Git => git::root_plan(dir, seen),
        VcsBrand::Mercurial => hg::root_plan(dir, seen),
        VcsBrand::Jujutsu => jj::root_plan(dir, seen),
    }
}

/// Where the question for the dirty files stands, for a directory `dir`
/// that `brand` manages.
pub open spec fn dirty_files_plan(
    brand: VcsBrand,
    dir: Seq<char>,
    clean_ok: bool,
    seen: Seq<Outcome>,
) -> StepView<Result<Seq<Seq<char>>, DriverErrorView>> {
    match brand {
        VcsBrand::Git => git::dirty_files_plan(dir, clean_ok, seen),
        VcsBrand::Mercurial => hg::dirty_files_plan(dir, clean_ok, seen),
        VcsBrand::Jujutsu => jj::dirty_files_plan(dir, clean_ok, seen),
    }
}

/// Where the question for the tracked files stands, for a directory `dir`
/// that `brand` manages.
pub open spec fn tracked_files_plan(
    brand: VcsBrand,
    dir: Seq<char>,
    seen: Seq<Outcome>,
) -> StepView<Result<Seq<Seq<char>>, DriverErrorView>> {
    match brand {
        VcsBrand::Git => git::tracked_files_plan(dir, seen),
        VcsBrand::Mercurial => hg::tracked_files_plan(dir, seen),
        VcsBrand::Jujutsu => jj::tracked_files_plan(dir, seen),
    }
}

/// Where the question for the current identifier stands, for a directory
/// `dir` that `brand` manages.
pub open spec fn current_ref_id_plan(
    brand: VcsBrand,
    dir: Seq<char>,
    dirty_ok: bool,
    seen: Seq<Outcome>,
) -> StepView<Result<Seq<char>, DriverErrorView>> {
    match brand {
        VcsBrand::Git => git::current_ref_id_plan(dir, dirty_ok, seen),
        VcsBrand::Mercurial => hg::current_ref_id_plan(dir, dirty_ok, seen),
        VcsBrand::Jujutsu => jj::current_ref_id_plan(dir, dirty_ok, seen),
    }
}

/// Where the question for the current name stands, for a directory `dir`
/// that `brand` manages.
pub open spec fn current_ref_name_plan(
    brand: VcsBrand,
    dir: Seq<char>,
    dirty_ok: bool,
    seen: Seq<Outcome>,
) -> StepView<Result<Option<Seq<char>>, DriverErrorView>> {
    match brand {
        VcsBrand::Git => git::current_ref_name_plan(dir, dirty_ok, seen),
        VcsBrand::Mercurial => hg::current_ref_name_plan(dir, dirty_ok, seen),
        VcsBrand::Jujutsu => jj::current_ref_name_plan(dir, dirty_ok, seen),
    }
}

/// Every question goes to the driver in the handle, as it is, and the
/// driver's answer comes back as it is.
impl Driver for Repo {
    open spec fn dir_view(&self) -> Seq<char> {
        self.adapter.dir_view()
    }

    open spec fn root_plan(&self, seen: Seq<Outcome>) -> StepView<
        Result<Seq<char>, DriverErrorView>,
    > {
        root_plan(self.adapter.brand(), self.adapter.dir_view(), seen)
    }

    fn root(&self, seen: &[CmdResult]) -> (step: Step<Result<QueryDir, DriverError>>) {
        match &self.adapter {
            Adapter::Git(repo) => repo.root(seen),
            Adapter::Mercurial(repo) => repo.root(seen),
            Adapter::Jujutsu(repo) => repo.root(seen),
        }
    }

    open spec fn dirty_files_plan(&self, clean_ok: bool, seen: Seq<Outcome>) -> StepView<
        Result<Seq<Seq<char>>, DriverErrorView>,
    > {
        dirty_files_plan(self.adapter.brand(), self.adapter.dir_view(), clean_ok, seen)
    }

    fn dirty_files(&self, clean_ok: bool, seen: &[CmdResult]) -> (step: Step<
        Result<Vec<QueryDir>, DriverError>,
    >) {
        match &self.adapter {
            Adapter::Git(repo) => repo.dirty_files(clean_ok, seen),
            Adapter::Mercurial(repo) => repo.dirty_files(clean_ok, seen),
            Adapter::Jujutsu(repo) => repo.dirty_files(clean_ok, seen),
        }
    }

    fn is_clean(&self, seen: &[CmdResult]) -> (step: Step<Result<bool, DriverError>>) {
        match &self.adapter {
            Adapter::Git(repo) => repo.is_clean(seen),
            Adapter::Mercurial(repo) => repo.is_clean(seen),
            Adapter::Jujutsu(repo) => repo.is_clean(seen),
        }
    }

    open spec fn tracked_files_plan(&self, seen: Seq<Outcome>) -> StepView<
        Result<Seq<Seq<char>>, DriverErrorView>,
    > {
        tracked_files_plan(self.adapter.brand(), self.adapter.dir_view(), seen)
    }

    fn tracked_files(&self, seen: &[CmdResult]) -> (step: Step<
        Result<Vec<QueryDir>, DriverError>,
    >) {
        match &self.adapter {
            Adapter::Git(repo) => repo.tracked_files(seen),
            Adapter::Mercurial(repo) => repo.tracked_files(seen),
            Adapter::Jujutsu(repo) => repo.tracked_files(seen),
        }
    }

    open spec fn current_ref_id_plan(&self, dirty_ok: bool, seen: Seq<Outcome>) -> StepView<
        Result<Seq<char>, DriverErrorView>,
    > {
        current_ref_id_plan(self.adapter.brand(), self.adapter.dir_view(), dirty_ok, seen)
    }

    fn current_ref_id(&self, dirty_ok: bool, seen: &[CmdResult]) -> (step: Step<
        Result<HistoryRefId, DriverError>,
    >) {
        match &self.adapter {
            Adapter::Git(repo) => repo.current_ref_id(dirty_ok, seen),
            Adapter::Mercurial(repo) => repo.current_ref_id(dirty_ok, seen),
            Adapter::Jujutsu(repo) => repo.current_ref_id(dirty_ok, seen),
        }
    }

    open spec fn current_ref_name_plan(&self, dirty_ok: bool, seen: Seq<Outcome>) -> StepView<
        Result<Option<Seq<char>>, DriverErrorView>,
    > {
        current_ref_name_plan(self.adapter.brand(), self.adapter.dir_view(), dirty_ok, seen)
    }

    fn current_ref_name(&self, dirty_ok: bool, seen: &[CmdResult]) -> (step: Step<
        Result<Option<HistoryRefName>, DriverError>,
    >) {
        match &self.adapter {
            Adapter::Git(repo) => repo.current_ref_name(dirty_ok, seen),
            Adapter::Mercurial(repo) => repo.current_ref_name(dirty_ok, seen),
            Adapter::Jujutsu(repo) => repo.current_ref_name(dirty_ok, seen),
        }
    }

    fn current_ref(&self, dirty_ok: bool, seen: &[CmdResult]) -> (step: Step<
        Result<HistoryRef, DriverError>,
    >) {
        match &self.adapter {
            Adapter::Git(repo) => repo.current_ref(dirty_ok, seen),
            Adapter::Mercurial(repo) => repo.current_ref(dirty_ok, seen),
            Adapter::Jujutsu(repo) => repo.current_ref(dirty_ok, seen),
        }
    }
}

// ---------------------------------------------------------------------------
// Laws
// ---------------------------------------------------------------------------
/// The probe with number `i` ran and its tool claimed the directory.
pub open spec fn claims(seen: Seq<Outcome>, i: int) -> bool {
    seen[i] matches Ok(output) && output.status.succeeded()
}

/// The probe with number `i` ran and its tool declined the directory.
pub open spec fn declines(seen: Seq<Outcome>, i: int) -> bool {
    seen[i] matches Ok(output) && !output.status.succeeded()
}

/// A directory that exactly one brand claims is detected as of that brand,
/// wherever the brand stands in the order of the probes. As detection is a
/// function of what the probes gave, asking again with the same outcomes
/// gives the same answer.
pub proof fn law_detection_finds_the_only_claimant(dir: Seq<char>, seen: Seq<Outcome>, i: int)
    requires
        seen.len() == VcsBrand::probe_order().len(),
        0 <= i < seen.len(),
        claims(seen, i),
        forall|j: int| 0 <= j < seen.len() && j != i ==> declines(seen, j),
    ensures
        detect(dir, seen) == (StepView::Done {
            answer: Ok::<RepoView, DriverErrorView>(
                RepoView { brand: VcsBrand::probe_order()[i], dir },
            ),
            read: (i + 1) as nat,
        }),
{
    reveal_with_fuel(detect_from, 4);
    if i >= 1 {
        assert(declines(seen, 0));
    }
    if i >= 2 {
        assert(declines(seen, 1));
    }
}

/// Detection stops at the first brand that claims the directory, and at the
/// first probe that could not be started: what comes after the outcomes
/// that decided the answer has no part in it.
pub proof fn law_detection_reads_only_what_decides(
    dir: Seq<char>,
    seen: Seq<Outcome>,
    other: Seq<Outcome>,
)
    requires
        detect(dir, seen) is Done,
        detect(dir, seen).reads() <= other.len(),
        forall|j: int| 0 <= j < detect(dir, seen).reads() ==> seen[j] == other[j],
    ensures
        detect(dir, seen).reads() <= seen.len(),
        detect(dir, other) == detect(dir, seen),
{
    reveal_with_fuel(detect_from, 4);
}

/// A probe that could not be started ends detection with its failure, if
/// every brand before it declined: the brands behind it are not tried, and
/// the failure is not taken for a brand that declines.
pub proof fn law_failed_probe_ends_detection(dir: Seq<char>, seen: Seq<Outcome>, i: int)
    requires
        0 <= i < VcsBrand::probe_order().len(),
        i < seen.len(),
        seen[i] is Err,
        forall|j: int| 0 <= j < i ==> declines(seen, j),
    ensures
        detect(dir, seen) == (StepView::Done {
            answer: Err::<RepoView, DriverErrorView>(
                DriverErrorView::Command {
                    context: VcsBrand::probe_order()[i].probe_context(),
                    source: seen[i]->Err_0,
                },
            ),
            read: (i + 1) as nat,
        }),
{
    reveal_with_fuel(detect_from, 4);
    if i >= 1 {
        assert(declines(seen, 0));
    }
    if i >= 2 {
        assert(declines(seen, 1));
    }
}

/// A directory that no brand claims is not detected: the failure is
/// `Unknown`, and its message names every brand that was tried, in the order
/// in which they were.
pub proof fn law_no_claimant_names_all_brands(dir: Seq<char>, seen: Seq<Outcome>)
    requires
        seen.len() >= VcsBrand::probe_order().len(),
        forall|j: int| 0 <= j < VcsBrand::probe_order().len() ==> declines(seen, j),
    ensures
        detect(dir, seen) == (StepView::Done {
            answer: Err::<RepoView, DriverErrorView>(
                DriverErrorView::Unknown(unknown_brand_message()),
            ),
            read: 3,
        }),
        unknown_brand_message()
            == "if dir is a VCS, it's of an unknown brand (tried these 3: Git, Mercurial, Jujutsu)"@,
{
    reveal_with_fuel(detect_from, 4);
    assert(declines(seen, 0) && declines(seen, 1) && declines(seen, 2));
    reveal_with_fuel(names_of, 4);
    reveal_strlit("if dir is a VCS, it's of an unknown brand (tried these ");
    reveal_strlit(": ");
    reveal_strlit(", ");
    reveal_strlit(")");
    reveal_strlit("Git");
    reveal_strlit("Mercurial");
    reveal_strlit("Jujutsu");
    reveal_strlit(
        "if dir is a VCS, it's of an unknown brand (tried these 3: Git, Mercurial, Jujutsu)",
    );
}

/// The command ran, succeeded and printed nothing.
pub open spec fn printed_nothing(outcome: Outcome) -> bool {
    outcome matches Ok(output) && output.status.succeeded() && lines_of(
        lossy_text(output.stdout),
    ).len() == 0
}

/// How a brand's driver names itself where its listing of dirty files
/// fails.
pub open spec fn listing_context(brand: VcsBrand) -> Seq<char> {
    match brand {
        VcsBrand::Git => "git cli: exec"@,
        VcsBrand::Mercurial => "hg cli: exec"@,
        VcsBrand::Jujutsu => "jj cli: exec"@,
    }
}

/// Where the tool lists nothing as changed, the tree is clean: the list of
/// dirty files is empty for those who allow that, and a failure that says
/// "repo not dirty" for those who do not.
pub proof fn law_nothing_listed_is_clean(brand: VcsBrand, dir: Seq<char>, seen: Seq<Outcome>)
    requires
        seen.len() >= 1,
        printed_nothing(seen[0]),
    ensures
        clean_from(dirty_files_plan(brand, dir, true, seen)) == (StepView::Done {
            answer: Ok::<bool, DriverErrorView>(true),
            read: 1,
        }),
        dirty_files_plan(brand, dir, true, seen) == (StepView::Done {
            answer: Ok::<Seq<Seq<char>>, DriverErrorView>(Seq::empty()),
            read: 1,
        }),
        dirty_files_plan(brand, dir, false, seen) == (StepView::Done {
            answer: Err::<Seq<Seq<char>>, DriverErrorView>(
                DriverErrorView::Unknown(listing_context(brand) + ": "@ + ERROR_REPO_NOT_DIRTY@),
            ),
            read: 1,
        }),
{
    let nothing = Seq::<Seq<char>>::empty();
    assert(nothing.map_values(
        |line: Seq<char>| without_first(line, git::GIT_STATUS_PREFIX_WIDTH as nat),
    ) == nothing);
    assert(nothing.map_values(
        |line: Seq<char>| without_first(line, hg::HG_STATUS_PREFIX_WIDTH as nat),
    ) == nothing);
}

/// What a tool gives for its listing of tracked files where there is no
/// commit yet: nothing at all, or, from Git, the complaint that `HEAD` names
/// no tree.
pub open spec fn lists_no_commit(brand: VcsBrand, outcome: Outcome) -> bool {
    printed_nothing(outcome) || (brand == VcsBrand::Git && git::has_no_tree_yet(outcome))
}

/// Before the first commit no file is tracked: the list of tracked files is
/// empty, and no failure.
pub proof fn law_nothing_tracked_before_history(
    brand: VcsBrand,
    dir: Seq<char>,
    seen: Seq<Outcome>,
)
    requires
        seen.len() >= 1,
        lists_no_commit(brand, seen[0]),
    ensures
        tracked_files_plan(brand, dir, seen) == (StepView::Done {
            answer: Ok::<Seq<Seq<char>>, DriverErrorView>(Seq::empty()),
            read: 1,
        }),
{
}

/// The top-level directory is what the tool says it is: asked from two
/// directories of one repository, and shown the same outcome, a brand gives
/// the same answer.
pub proof fn law_root_is_the_same_from_any_directory(
    brand: VcsBrand,
    here: Seq<char>,
    there: Seq<char>,
    seen: Seq<Outcome>,
)
    requires
        seen.len() >= 1,
    ensures
        root_plan(brand, here, seen) == root_plan(brand, there, seen),
        root_plan(brand, here, seen) is Done,
{
}

/// The mark that a brand's listing of dirty files puts in front of a file
/// that is not tracked.
pub open spec fn untracked_mark(brand: VcsBrand) -> Seq<char> {
    match brand {
        VcsBrand::Git => "?? "@,
        VcsBrand::Mercurial => "? "@,
        VcsBrand::Jujutsu => ""@,
    }
}

/// Where the tool lists one file that is not tracked, the list of dirty
/// files is that file's path alone, without the tool's mark in front of it.
pub proof fn law_one_untracked_file_is_listed_by_its_path(
    brand: VcsBrand,
    dir: Seq<char>,
    seen: Seq<Outcome>,
    path: Seq<char>,
)
    requires
        seen.len() >= 1,
        seen[0] matches Ok(output) && output.status.succeeded() && lines_of(
            lossy_text(output.stdout),
        ) == seq![untracked_mark(brand) + path],
    ensures
        dirty_files_plan(brand, dir, false, seen) == (StepView::Done {
            answer: Ok::<Seq<Seq<char>>, DriverErrorView>(seq![path]),
            read: 1,
        }),
        clean_from(dirty_files_plan(brand, dir, true, seen)) == (StepView::Done {
            answer: Ok::<bool, DriverErrorView>(false),
            read: 1,
        }),
{
    reveal_strlit("?? ");
    reveal_strlit("? ");
    reveal_strlit("");
    let line = untracked_mark(brand) + path;
    assert(line.skip(untracked_mark(brand).len() as int) == path);
    assert(seq![line].map_values(
        |line: Seq<char>| without_first(line, git::GIT_STATUS_PREFIX_WIDTH as nat),
    ) == seq![without_first(line, git::GIT_STATUS_PREFIX_WIDTH as nat)]);
    assert(seq![line].map_values(
        |line: Seq<char>| without_first(line, hg::HG_STATUS_PREFIX_WIDTH as nat),
    ) == seq![without_first(line, hg::HG_STATUS_PREFIX_WIDTH as nat)]);
}

/// A query for the current identifier that must not describe a dirty tree
/// fails on a dirty tree, and fails before the identifier is asked for: the
/// listing of dirty files is the only outcome that is read.
pub proof fn law_dirty_tree_has_no_hermetic_id(
    brand: VcsBrand,
    dir: Seq<char>,
    seen: Seq<Outcome>,
)
    requires
        clean_from(dirty_files_plan(brand, dir, true, seen)) == (StepView::Done {
            answer: Ok::<bool, DriverErrorView>(false),
            read: 1,
        }),
    ensures
        current_ref_id_plan(brand, dir, false, seen) == (StepView::Done {
            answer: Err::<Seq<char>, DriverErrorView>(not_clean()),
            read: 1,
        }),
{
}

/// Detection ends: once every brand's probe has an outcome, there is an
/// answer, so nobody is asked for a fourth command.
pub proof fn law_detection_ends(dir: Seq<char>, seen: Seq<Outcome>)
    requires
        seen.len() >= VcsBrand::probe_order().len(),
    ensures
        detect(dir, seen) is Done,
        detect(dir, seen).reads() <= VcsBrand::probe_order().len(),
{
    reveal_with_fuel(detect_from, 4);
}

/// Every question to a handle ends: the top-level directory and the two
/// listings are answered from one outcome, the identifier from two, and the
/// name from three.
pub proof fn law_questions_end(brand: VcsBrand, dir: Seq<char>, flag: bool, seen: Seq<Outcome>)
    ensures
        seen.len() >= 1 ==> root_plan(brand, dir, seen) is Done && dirty_files_plan(
            brand,
            dir,
            flag,
            seen,
        ) is Done && tracked_files_plan(brand, dir, seen) is Done,
        seen.len() >= 2 ==> current_ref_id_plan(brand, dir, flag, seen) is Done,
        seen.len() >= 3 ==> current_ref_name_plan(brand, dir, flag, seen) is Done,
{
    if seen.len() >= 1 {
        assert(seen.skip(0) == seen);
    }
}

/// Two lists of outcomes agree on their first `n`.
pub open spec fn agree_on(seen: Seq<Outcome>, other: Seq<Outcome>, n: nat) -> bool {
    n <= seen.len() && n <= other.len() && forall|j: int| 0 <= j < n ==> seen[j] == other[j]
}

/// An answer rests on the outcomes that were read for it and on nothing
/// else: whatever else the list holds behind them, the answer is the same.
pub proof fn law_answers_rest_on_what_was_read(
    brand: VcsBrand,
    dir: Seq<char>,
    flag: bool,
    seen: Seq<Outcome>,
    other: Seq<Outcome>,
)
    ensures
        root_plan(brand, dir, seen) is Done && agree_on(
            seen,
            other,
            root_plan(brand, dir, seen).reads(),
        ) ==> root_plan(brand, dir, other) == root_plan(brand, dir, seen),
        dirty_files_plan(brand, dir, flag, seen) is Done && agree_on(
            seen,
            other,
            dirty_files_plan(brand, dir, flag, seen).reads(),
        ) ==> dirty_files_plan(brand, dir, flag, other) == dirty_files_plan(
            brand,
            dir,
            flag,
            seen,
        ),
        tracked_files_plan(brand, dir, seen) is Done && agree_on(
            seen,
            other,
            tracked_files_plan(brand, dir, seen).reads(),
        ) ==> tracked_files_plan(brand, dir, other) == tracked_files_plan(brand, dir, seen),
        current_ref_id_plan(brand, dir, flag, seen) is Done && agree_on(
            seen,
            other,
            current_ref_id_plan(brand, dir, flag, seen).reads(),
        ) ==> current_ref_id_plan(brand, dir, flag, other) == current_ref_id_plan(
            brand,
            dir,
            flag,
            seen,
        ),
        current_ref_name_plan(brand, dir, flag, seen) is Done && agree_on(
            seen,
            other,
            current_ref_name_plan(brand, dir, flag, seen).reads(),
        ) ==> current_ref_name_plan(brand, dir, flag, other) == current_ref_name_plan(
            brand,
            dir,
            flag,
            seen,
        ),
{
    assert(seen.skip(0) == seen);
    assert(other.skip(0) == other);
}

} // verus!
