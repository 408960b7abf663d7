//! Snapshots of a site and the change report between two of them.
use vstd::prelude::*;
use vstd::string::*;
use prettydiff::basic::DiffOp;
use crate::text::{append_decimal, append_joined, decimal, decode_lossy, joined, lossy_of, views_of};

verus! {

/// One step of a line diff: a run of lines kept, added, removed or replaced.
pub enum LineOp {
    Equal(Vec<String>),
    Insert(Vec<String>),
    Remove(Vec<String>),
    Replace(Vec<String>, Vec<String>),
}

/// The mathematical form of a [`LineOp`].
pub enum LineOpModel {
    Equal(Seq<Seq<char>>),
    Insert(Seq<Seq<char>>),
    Remove(Seq<Seq<char>>),
    Replace(Seq<Seq<char>>, Seq<Seq<char>>),
}

impl View for LineOp {
    type V = LineOpModel;

    open spec fn view(&self) -> LineOpModel {
        match self {
            LineOp::Equal(a) => LineOpModel::Equal(views_of(a@)),
            LineOp::Insert(a) => LineOpModel::Insert(views_of(a@)),
            LineOp::Remove(a) => LineOpModel::Remove(views_of(a@)),
            LineOp::Replace(a, b) => LineOpModel::Replace(views_of(a@), views_of(b@)),
        }
    }
}

/// The models of a sequence of operations.
pub open spec fn ops_model(ops: Seq<LineOp>) -> Seq<LineOpModel> {
    ops.map_values(|op: LineOp| op@)
}

/// The line diff that prettydiff computes between two texts.
pub uninterp spec fn line_diff_of(old: Seq<char>, new: Seq<char>) -> Seq<LineOpModel>;

/// Relies on `prettydiff::diff_lines(old, new).diff()`: the opcodes of the
/// LCS line diff, each converted to an owned [`LineOp`]. On two equal texts
/// the LCS table matches every line with itself, so only `Equal` runs occur.
#[verifier::external_body]
fn line_ops(old: &str, new: &str) -> (r: Vec<LineOp>)
    ensures
        ops_model(r@) == line_diff_of(old@, new@),
        old@ == new@ ==> forall|i: int| 0 <= i < r@.len() ==> (#[trigger] r@[i]) is Equal,
{
    let owned = |a: &[&str]| a.iter().map(|s| s.to_string()).collect::<Vec<String>>();
    prettydiff::diff_lines(old, new).diff().into_iter().map(|op| match op {
        DiffOp::Equal(a) => LineOp::Equal(owned(a)),
        DiffOp::Insert(a) => LineOp::Insert(owned(a)),
        DiffOp::Remove(a) => LineOp::Remove(owned(a)),
        DiffOp::Replace(a, b) => LineOp::Replace(owned(a), owned(b)),
    }).collect()
}

/// The text that describes one operation; a kept run describes nothing.
pub open spec fn render_op(op: LineOpModel) -> Seq<char> {
    match op {
        LineOpModel::Equal(_) => Seq::empty(),
        LineOpModel::Insert(a) => "Added:\n"@ + joined(a) + "\n\n"@,
        LineOpModel::Remove(a) => "Removed:\n"@ + joined(a) + "\n\n"@,
        LineOpModel::Replace(a, b) =>
            "Replaced:\n"@ + joined(a) + "\nwith\n"@ + joined(b) + "\n\n"@,
    }
}

/// The descriptions of all operations, concatenated in order.
pub open spec fn rendered(ops: Seq<LineOpModel>) -> Seq<char>
    decreases ops.len(),
{
    if ops.len() == 0 {
        Seq::empty()
    } else {
        rendered(ops.drop_last()) + render_op(ops.last())
    }
}

/// Whether some operation is not a kept run.
pub open spec fn has_change(ops: Seq<LineOpModel>) -> bool {
    exists|i: int| 0 <= i < ops.len() && !(#[trigger] ops[i] is Equal)
}

/// The content part of a change report: the rendered diff, if any line changed.
pub open spec fn content_change(ops: Seq<LineOpModel>) -> Option<Seq<char>> {
    if has_change(ops) {
        Some(rendered(ops))
    } else {
        None
    }
}

/// Describes every operation that is not a kept run, in order.
pub fn render_diff(ops: &[LineOp]) -> (r: String)
    ensures
        r@ == rendered(ops_model(ops@)),
{
    let mut acc = String::new();
    let n = ops.len();
    let mut i: usize = 0;
    while i < n
        invariant
            n == ops@.len(),
            i <= n,
            acc@ == rendered(ops_model(ops@).take(i as int)),
        decreases n - i,
    {
        let ghost before = acc@;
        match &ops[i] {
            LineOp::Equal(_) => {},
            LineOp::Insert(a) => {
                acc.append("Added:\n");
                append_joined(&mut acc, a);
                acc.append("\n\n");
            },
            LineOp::Remove(a) => {
                acc.append("Removed:\n");
                append_joined(&mut acc, a);
                acc.append("\n\n");
            },
            LineOp::Replace(a, b) => {
                acc.append("Replaced:\n");
                append_joined(&mut acc, a);
                acc.append("\nwith\n");
                append_joined(&mut acc, b);
                acc.append("\n\n");
            },
        }
        proof {
            let all = ops_model(ops@);
            assert(all.take(i + 1).drop_last() =~= all.take(i as int));
            assert(all.take(i + 1).last() == ops@[i as int]@);
            assert(acc@ =~= before + render_op(ops@[i as int]@));
        }
        i = i + 1;
    }
    proof {
        assert(ops_model(ops@).take(n as int) =~= ops_model(ops@));
    }
    acc
}

/// One successful fetch of a site: its HTTP status and raw body.
pub struct SiteResult {
    pub status: u16,
    pub bytes: Vec<u8>,
}

/// The mathematical form of a change report.
pub struct ReportModel {
    pub status: Option<u16>,
    pub content: Option<Seq<char>>,
}

/// The new status, where it differs from the old one.
pub open spec fn status_change(old: u16, new: u16) -> Option<u16> {
    if old != new {
        Some(new)
    } else {
        None
    }
}

/// The mathematical form of a snapshot: a status and the raw body.
pub struct SnapshotModel {
    pub status: u16,
    pub body: Seq<u8>,
}

/// The report that compares a prior snapshot with a new one.
pub open spec fn report_of(prev: SnapshotModel, new: SnapshotModel) -> ReportModel {
    ReportModel {
        status: status_change(prev.status, new.status),
        content: content_change(line_diff_of(lossy_of(prev.body), lossy_of(new.body))),
    }
}

/// Whether a report records any difference.
pub open spec fn report_differs(m: ReportModel) -> bool {
    m.status is Some || m.content is Some
}

/// The notification body that describes a report.
pub open spec fn body_of(m: ReportModel) -> Seq<char> {
    match (m.status, m.content) {
        (Some(s), Some(d)) => "New status '"@ + decimal(s as nat) + "' and site content changed\n"@ + d,
        (Some(s), None) => "New status '"@ + decimal(s as nat) + "'"@,
        (None, Some(d)) => "Site content changed\n"@ + d,
        (None, None) => "Site content changed"@,
    }
}

/// How two snapshots of a site differ: the new status if it changed, and
/// the rendered line diff if the content changed.
pub struct SiteResultDiff {
    pub status: Option<u16>,
    pub diff: Option<String>,
}

impl SiteResultDiff {
    pub open spec fn model(&self) -> ReportModel {
        ReportModel {
            status: self.status,
            content: match self.diff {
                Some(d) => Some(d@),
                None => None,
            },
        }
    }

    /// The report for two statuses and the line diff between the two bodies.
    pub fn from_ops(old_status: u16, new_status: u16, ops: &[LineOp]) -> (r: SiteResultDiff)
        ensures
            r.model() == (ReportModel {
                status: status_change(old_status, new_status),
                content: content_change(ops_model(ops@)),
            }),
    {
        let status = if old_status != new_status { Some(new_status) } else { None };
        let n = ops.len();
        let mut changed = false;
        let mut i: usize = 0;
        while i < n
            invariant
                n == ops@.len(),
                i <= n,
                changed <==> exists|j: int| 0 <= j < i && !(#[trigger] ops_model(ops@)[j] is Equal),
            decreases n - i,
        {
            let this = match &ops[i] {
                LineOp::Equal(_) => false,
                _ => true,
            };
            proof {
                assert(ops_model(ops@)[i as int] == ops@[i as int]@);
            }
            changed = changed || this;
            i = i + 1;
        }
        let diff = if changed { Some(render_diff(ops)) } else { None };
        SiteResultDiff { status, diff }
    }

    /// Whether the status or the content changed.
    pub fn is_different(&self) -> (r: bool)
        ensures
            r == report_differs(self.model()),
    {
        self.status.is_some() || self.diff.is_some()
    }

    /// The notification body for this report.
    pub fn description(&self) -> (r: String)
        ensures
            r@ == body_of(self.model()),
    {
        let mut acc = String::new();
        match (&self.status, &self.diff) {
            (Some(s), Some(d)) => {
                acc.append("New status '");
                append_decimal(&mut acc, *s);
                acc.append("' and site content changed\n");
                acc.append(d.as_str());
            },
            (Some(s), None) => {
                acc.append("New status '");
                append_decimal(&mut acc, *s);
                acc.append("'");
            },
            (None, Some(d)) => {
                acc.append("Site content changed\n");
                acc.append(d.as_str());
            },
            (None, None) => {
                acc.append("Site content changed");
            },
        }
        proof {
            assert(acc@ =~= body_of(self.model()));
        }
        acc
    }
}

impl SiteResult {
    pub open spec fn model(&self) -> SnapshotModel {
        SnapshotModel { status: self.status, body: self.bytes@ }
    }

    /// Compares this snapshot with a newer one. Two equal snapshots never
    /// differ.
    pub fn diff(&self, rhs: &SiteResult) -> (r: SiteResultDiff)
        ensures
            r.model() == report_of(self.model(), rhs.model()),
            self.status == rhs.status && self.bytes@ == rhs.bytes@ ==> !report_differs(r.model()),
    {
        let old = decode_lossy(self.bytes.as_slice());
        let new = decode_lossy(rhs.bytes.as_slice());
        let ops = line_ops(old.as_str(), new.as_str());
        let r = SiteResultDiff::from_ops(self.status, rhs.status, ops.as_slice());
        proof {
            if self.bytes@ == rhs.bytes@ {
                assert(old@ == new@);
                assert forall|i: int| 0 <= i < ops_model(ops@).len() implies
                    (#[trigger] ops_model(ops@)[i]) is Equal by {
                    assert(ops@[i] is Equal);
                }
            }
        }
        r
    }
}

} // verus!
