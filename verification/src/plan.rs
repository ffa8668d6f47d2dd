//! What is to be done for the records of a page: the steps, their order,
//! and the names of the files they touch.

use crate::record::{Observation, Record};
use crate::target::{Satellite, Target};
use crate::text::{debug_quote, debug_quoted, decimal, decimal_string};
use vstd::prelude::*;
use vstd::string::{StrSliceExecFns, StringExecFns};

verus! {

/// One thing for the caller to do. A step that fails ends the run.
#[derive(Debug, PartialEq, Eq)]
pub enum Step {
    /// Create the folder, and the folders above it, unless they exist.
    CreateFolder { path: String },
    /// Show a line of progress to the user.
    Report { message: String },
    /// Create the file, or empty it, and write the line to it.
    WriteLine { file: String, line: String },
    /// Write the line behind what the file holds.
    AppendLine { file: String, line: String },
    /// Fetch the address and make the answer's body the file's content.
    Download { url: String, file: String },
}

/// The mathematical value of a [`Step`].
pub enum StepView {
    CreateFolder { path: Seq<char> },
    Report { message: Seq<char> },
    WriteLine { file: Seq<char>, line: Seq<char> },
    AppendLine { file: Seq<char>, line: Seq<char> },
    Download { url: Seq<char>, file: Seq<char> },
}

impl View for Step {
    type V = StepView;

    open spec fn view(&self) -> StepView {
        match self {
            Step::CreateFolder { path } => StepView::CreateFolder { path: path@ },
            Step::Report { message } => StepView::Report { message: message@ },
            Step::WriteLine { file, line } => StepView::WriteLine { file: file@, line: line@ },
            Step::AppendLine { file, line } => StepView::AppendLine { file: file@, line: line@ },
            Step::Download { url, file } => StepView::Download { url: url@, file: file@ },
        }
    }
}

impl DeepView for Step {
    type V = StepView;

    open spec fn deep_view(&self) -> StepView {
        self@
    }
}

/// The path of a file in a folder, as a join of paths with `/` between
/// them. A file whose path begins at the root stands for itself. Else the
/// file goes below the parent, with a `/` between the two unless the
/// parent is empty, which is the working folder, or ends in one.
pub open spec fn joined(parent: Seq<char>, file: Seq<char>) -> Seq<char> {
    if file.len() > 0 && file[0] == '/' {
        file
    } else if parent.len() == 0 || parent.last() == '/' {
        parent + file
    } else {
        parent + "/"@ + file
    }
}

/// The name of a file of a record: the record's name, the satellite's tag,
/// and the suffix that tells the file's kind.
pub open spec fn file_name(name: Seq<char>, tag: Seq<char>, suffix: Seq<char>) -> Seq<char> {
    name + "-"@ + tag + "-beacon."@ + suffix
}

/// The path of a file of a record: its file name, joined to the parent
/// folder.
pub open spec fn file_path(
    parent: Seq<char>,
    target: Target,
    record: Record,
    suffix: Seq<char>,
) -> Seq<char> {
    joined(parent, file_name(record.name(), target.tag(), suffix))
}

/// The path of the text file that lists a record's payload addresses.
pub open spec fn sidecar_path(parent: Seq<char>, target: Target, record: Record) -> Seq<char> {
    file_path(parent, target, record, "url"@)
}

/// The path of the file that holds a record's payload.
pub open spec fn payload_path(parent: Seq<char>, target: Target, record: Record) -> Seq<char> {
    file_path(parent, target, record, "raw"@)
}

/// The line that records a payload's address: the address in debug quotes,
/// and a line feed.
pub open spec fn sidecar_line(url: Seq<char>) -> Seq<char> {
    debug_quoted(url) + "\n"@
}

/// The line of progress shown before a record is stored.
pub open spec fn record_notice(target: Target, record: Record) -> Seq<char> {
    target.name + ": Downloading observation: "@ + record.name() + " ("@ + decimal(record.id)
        + ")"@
}

/// The steps that store the `k`-th payload of a record, counted from 0:
/// its address goes to the text file, which the first payload starts anew
/// and the others add to; its bytes replace the payload file's content.
pub open spec fn payload_steps(
    parent: Seq<char>,
    target: Target,
    record: Record,
    k: int,
) -> Seq<StepView> {
    let file = sidecar_path(parent, target, record);
    let line = sidecar_line(record.urls[k]);
    seq![
        if k == 0 {
            StepView::WriteLine { file, line }
        } else {
            StepView::AppendLine { file, line }
        },
        StepView::Download { url: record.urls[k], file: payload_path(parent, target, record) },
    ]
}

/// The steps for a record up to, and without, its `k`-th payload: the line
/// of progress, then the steps of each payload before it, in order.
pub open spec fn record_steps(
    parent: Seq<char>,
    target: Target,
    record: Record,
    k: nat,
) -> Seq<StepView>
    decreases k,
{
    if k == 0 {
        seq![StepView::Report { message: record_notice(target, record) }]
    } else {
        record_steps(parent, target, record, (k - 1) as nat) + payload_steps(
            parent,
            target,
            record,
            k - 1,
        )
    }
}

/// The steps that store a record: none for a record without payloads, else
/// those for all its payloads.
pub open spec fn record_plan(parent: Seq<char>, target: Target, record: Record) -> Seq<StepView> {
    if record.eligible() {
        record_steps(parent, target, record, record.urls.len())
    } else {
        Seq::empty()
    }
}

/// The steps that store the records of a page: those of each record, in the
/// order of the page.
pub open spec fn page_plan(
    parent: Seq<char>,
    target: Target,
    records: Seq<Record>,
) -> Seq<StepView>
    decreases records.len(),
{
    if records.len() == 0 {
        Seq::empty()
    } else {
        page_plan(parent, target, records.drop_last()) + record_plan(
            parent,
            target,
            records.last(),
        )
    }
}

/// Joins the path of a file to that of a folder.
pub fn join(parent: &str, file: &str) -> (r: String)
    ensures
        r@ == joined(parent@, file@),
{
    if !file.is_empty() && file.get_char(0) == '/' {
        return String::from_str(file);
    }
    let mut path = String::from_str(parent);
    let length = parent.unicode_len();
    if length > 0 && parent.get_char(length - 1) != '/' {
        path.append("/");
    }
    path.append(file);
    path
}

/// Names a file of a record from the record's name and the satellite's
/// tag, and joins it to the parent folder.
pub fn file_path_of(parent: &str, name: &str, tag: &str, suffix: &str) -> (r: String)
    ensures
        r@ == joined(parent@, file_name(name@, tag@, suffix@)),
{
    let mut file = String::from_str(name);
    file.append("-");
    file.append(tag);
    file.append("-beacon.");
    file.append(suffix);
    join(parent, file.as_str())
}

/// Names a file of an observation and joins it to the parent folder. With
/// an empty parent the file is named in the working folder. An observation
/// whose name begins with `/` names its file from the root, whatever the
/// parent.
pub fn output_file(parent: &str, sat: &Satellite, obs: &Observation, suffix: &str) -> (r: String)
    ensures
        r@ == file_path(parent@, sat@, obs@, suffix@),
{
    file_path_of(parent, obs.name().as_str(), sat.tag().as_str(), suffix)
}

/// Ends a quoted address with a line feed.
pub fn line_of(quoted: &str) -> (r: String)
    ensures
        r@ == quoted@ + "\n"@,
{
    String::from_str(quoted).concat("\n")
}

/// The line that records a payload's address in the text file.
pub fn line_for(url: &str) -> (r: String)
    ensures
        r@ == sidecar_line(url@),
{
    line_of(debug_quote(url).as_str())
}

/// The line of progress shown before an observation is stored.
pub fn notice_for(sat: &Satellite, obs: &Observation) -> (r: String)
    ensures
        r@ == record_notice(sat@, obs@),
{
    let mut message = String::from_str(sat.name);
    message.append(": Downloading observation: ");
    message.append(obs.name().as_str());
    message.append(" (");
    message.append(decimal_string(obs.id).as_str());
    message.append(")");
    message
}

/// Plans the storing of one observation below the parent folder.
pub fn plan_record(parent: &str, sat: &Satellite, obs: &Observation) -> (plan: Vec<Step>)
    ensures
        plan.deep_view() == record_plan(parent@, sat@, obs@),
        !obs@.eligible() ==> plan@.len() == 0,
{
    let mut plan: Vec<Step> = Vec::new();
    if !obs.is_eligible() {
        assert(plan.deep_view() =~= Seq::empty());
        return plan;
    }
    plan.push(Step::Report { message: notice_for(sat, obs) });
    assert(plan.deep_view() =~= record_steps(parent@, sat@, obs@, 0));
    let mut k: usize = 0;
    while k < obs.demoddata.len()
        invariant
            k <= obs.demoddata.len(),
            obs@.urls.len() == obs.demoddata.len(),
            plan.deep_view() == record_steps(parent@, sat@, obs@, k as nat),
        decreases obs.demoddata.len() - k,
    {
        let ghost before = plan.deep_view();
        let url = &obs.demoddata[k].payload_demod;
        assert(url@ == obs@.urls[k as int]);
        let line = line_for(url.as_str());
        let file = output_file(parent, sat, obs, "url");
        if k == 0 {
            plan.push(Step::WriteLine { file, line });
        } else {
            plan.push(Step::AppendLine { file, line });
        }
        plan.push(Step::Download { url: url.clone(), file: output_file(parent, sat, obs, "raw") });
        assert(plan.deep_view() =~= before + payload_steps(parent@, sat@, obs@, k as int));
        k += 1;
    }
    plan
}

/// Plans the storing of the observations of a page below the parent folder.
pub fn plan_page(parent: &str, sat: &Satellite, records: &Vec<Observation>) -> (plan: Vec<Step>)
    ensures
        plan.deep_view() == page_plan(parent@, sat@, records.deep_view()),
{
    let mut plan: Vec<Step> = Vec::new();
    assert(records.deep_view().take(0) =~= Seq::empty());
    assert(plan.deep_view() =~= Seq::empty());
    let mut i: usize = 0;
    while i < records.len()
        invariant
            i <= records.len(),
            plan.deep_view() == page_plan(parent@, sat@, records.deep_view().take(i as int)),
        decreases records.len() - i,
    {
        let ghost before = plan.deep_view();
        let ghost done = records.deep_view().take(i as int);
        let ghost more = records.deep_view().take(i + 1);
        let mut steps = plan_record(parent, sat, &records[i]);
        let ghost added = steps.deep_view();
        plan.append(&mut steps);
        assert(plan.deep_view() =~= before + added);
        assert(more.drop_last() =~= done);
        assert(more.last() == records[i as int]@);
        i += 1;
    }
    assert(records.deep_view().take(i as int) =~= records.deep_view());
    plan
}

} // verus!
