//! The agent's own upgrade: what a download has to be, how the program is
//! replaced, and the way back.

use crate::agent::error::{joined, Error, ErrorModel};
use crate::agent::unit::artifact;
use crate::json::{self, Json, JsonObject, JsonView};
use crate::text;
use crate::wire::{self, DecodeError, Fault, Form, Wire};
use vstd::prelude::*;
use vstd::string::*;

verus! {

/// An upgrade that a restart completes.
#[derive(Debug, Clone, PartialEq)]
pub struct PendingUpgrade {
    /// The version that is wanted.
    pub target_version: String,
    /// The version that it replaces.
    pub previous_version: String,
    /// Where the replaced program is kept.
    pub rollback_path: String,
    /// When it began, in milliseconds.
    pub initiated_at: i64,
}

/// What a value of [`PendingUpgrade`] is.
#[verifier::ext_equal]
pub struct PendingUpgradeModel {
    pub target_version: Seq<char>,
    pub previous_version: Seq<char>,
    pub rollback_path: Seq<char>,
    pub initiated_at: i64,
}

impl Wire for PendingUpgrade {
    type Model = PendingUpgradeModel;

    open spec fn model(&self) -> PendingUpgradeModel {
        PendingUpgradeModel {
            target_version: self.target_version.model(),
            previous_version: self.previous_version.model(),
            rollback_path: self.rollback_path.model(),
            initiated_at: self.initiated_at.model(),
        }
    }

    open spec fn tree(m: PendingUpgradeModel) -> JsonView {
        let o = Map::<Seq<char>, JsonView>::empty();
        let o = o.insert("target_version"@, String::tree(m.target_version));
        let o = o.insert("previous_version"@, String::tree(m.previous_version));
        let o = o.insert("rollback_path"@, String::tree(m.rollback_path));
        let o = o.insert("initiated_at"@, i64::tree(m.initiated_at));
        JsonView::Object(o)
    }

    open spec fn read(t: JsonView, at: Seq<char>, form: Form) -> Result<PendingUpgradeModel, Fault> {
        let t = wire::unlisted(
            t,
            seq!["target_version"@, "previous_version"@, "rollback_path"@, "initiated_at"@],
            4,
            form,
        );
        let target_version = wire::read_required::<String>(t, "target_version"@, form);
        let previous_version = wire::read_required::<String>(t, "previous_version"@, form);
        let rollback_path = wire::read_required::<String>(t, "rollback_path"@, form);
        let initiated_at = wire::read_required::<i64>(t, "initiated_at"@, form);
        if !(t is Object) {
            Err(Fault::Invalid(at))
        } else if target_version is Err {
            Err(target_version->Err_0)
        } else if previous_version is Err {
            Err(previous_version->Err_0)
        } else if rollback_path is Err {
            Err(rollback_path->Err_0)
        } else if initiated_at is Err {
            Err(initiated_at->Err_0)
        } else {
            Ok(PendingUpgradeModel {
                target_version: target_version->Ok_0,
                previous_version: previous_version->Ok_0,
                rollback_path: rollback_path->Ok_0,
                initiated_at: initiated_at->Ok_0,
            })
        }
    }

    open spec fn lossless(m: PendingUpgradeModel) -> bool {
        &&& String::lossless(m.target_version)
        &&& String::lossless(m.previous_version)
        &&& String::lossless(m.rollback_path)
        &&& i64::lossless(m.initiated_at)
    }

    open spec fn fits(m: PendingUpgradeModel, depth: nat) -> bool {
        &&& depth > 0
        &&& String::fits(m.target_version, (depth - 1) as nat)
        &&& String::fits(m.previous_version, (depth - 1) as nat)
        &&& String::fits(m.rollback_path, (depth - 1) as nat)
        &&& i64::fits(m.initiated_at, (depth - 1) as nat)
    }

    fn to_json(&self) -> (r: Json) {
        let mut o = JsonObject::new();
        o.set("target_version", self.target_version.to_json());
        o.set("previous_version", self.previous_version.to_json());
        o.set("rollback_path", self.rollback_path.to_json());
        o.set("initiated_at", self.initiated_at.to_json());
        o.finish()
    }

    fn from_json(j: &Json, at: &str, form: Form) -> (r: Result<PendingUpgrade, DecodeError>) {
        let names = ["target_version", "previous_version", "rollback_path", "initiated_at"];
        let listed = wire::unlist(j, &names, 4, form);
        let j = match &listed {
            Some(o) => o,
            None => j,
        };
        proof {
            assert(wire::strs(names@) =~= seq![
                "target_version"@,
                "previous_version"@,
                "rollback_path"@,
                "initiated_at"@,
            ]);
        }
        if !j.is_object() {
            return Err(DecodeError::Invalid(at.to_owned()));
        }
        let target_version = match wire::required::<String>(j, "target_version", form) {
            Ok(x) => x,
            Err(e) => return Err(e),
        };
        let previous_version = match wire::required::<String>(j, "previous_version", form) {
            Ok(x) => x,
            Err(e) => return Err(e),
        };
        let rollback_path = match wire::required::<String>(j, "rollback_path", form) {
            Ok(x) => x,
            Err(e) => return Err(e),
        };
        let initiated_at = match wire::required::<i64>(j, "initiated_at", form) {
            Ok(x) => x,
            Err(e) => return Err(e),
        };
        Ok(PendingUpgrade { target_version, previous_version, rollback_path, initiated_at })
    }

    proof fn law_reads_what_it_writes(m: PendingUpgradeModel, at: Seq<char>, form: Form) {
        reveal_strlit("target_version");
        reveal_strlit("previous_version");
        reveal_strlit("rollback_path");
        reveal_strlit("initiated_at");
        assert("target_version"@.len() == 14);
        assert("previous_version"@.len() == 16);
        assert("rollback_path"@.len() == 13);
        assert("initiated_at"@.len() == 12);
        String::law_reads_what_it_writes(m.target_version, "target_version"@, form);
        String::law_reads_what_it_writes(m.previous_version, "previous_version"@, form);
        String::law_reads_what_it_writes(m.rollback_path, "rollback_path"@, form);
        i64::law_reads_what_it_writes(m.initiated_at, "initiated_at"@, form);
        let t = PendingUpgrade::tree(m);
        assert(t.field("target_version"@) == Some(String::tree(m.target_version)));
        assert(t.field("previous_version"@) == Some(String::tree(m.previous_version)));
        assert(t.field("rollback_path"@) == Some(String::tree(m.rollback_path)));
        assert(t.field("initiated_at"@) == Some(i64::tree(m.initiated_at)));
    }

    proof fn law_fits(m: PendingUpgradeModel, depth: nat) {
        let inner = (depth - 1) as nat;
        let o = Map::<Seq<char>, JsonView>::empty();
        String::law_fits(m.target_version, inner);
        let v = String::tree(m.target_version);
        json::lemma_insert_within(o, "target_version"@, v, inner);
        let o = o.insert("target_version"@, v);
        String::law_fits(m.previous_version, inner);
        let v = String::tree(m.previous_version);
        json::lemma_insert_within(o, "previous_version"@, v, inner);
        let o = o.insert("previous_version"@, v);
        String::law_fits(m.rollback_path, inner);
        let v = String::tree(m.rollback_path);
        json::lemma_insert_within(o, "rollback_path"@, v, inner);
        let o = o.insert("rollback_path"@, v);
        i64::law_fits(m.initiated_at, inner);
        let v = i64::tree(m.initiated_at);
        json::lemma_insert_within(o, "initiated_at"@, v, inner);
        let o = o.insert("initiated_at"@, v);
    }
}

/// The name of the file that a restart finds.
pub const STATE_FILE: &'static str = "pending-upgrade.json";

/// What there is of the file that records an upgrade.
#[derive(Debug)]
pub enum PendingFile {
    /// There is none.
    Absent,
    /// It could not be read.
    Unreadable,
    /// It holds this text.
    Text(String),
}

/// The upgrade that a text records, by its JSON.
pub open spec fn recorded(parsed: Result<JsonView, Seq<char>>) -> Option<PendingUpgradeModel> {
    match wire::decoded::<PendingUpgrade>(parsed, "pending upgrade"@) {
        Ok(m) => Some(m),
        Err(_) => None,
    }
}

/// Takes the upgrade out of a record whose JSON has been read.
pub fn read_recorded(parsed: Result<Json, String>) -> (r: Option<PendingUpgrade>)
    ensures
        wire::optional_model(r) == recorded(wire::parsed_view(parsed)),
{
    match wire::decode_parsed::<PendingUpgrade>(parsed, "pending upgrade") {
        Ok(p) => Some(p),
        Err(_) => None,
    }
}

/// Finds the upgrade that a restart has to complete, and says whether the record
/// is to be removed: a record is used once, and a bad one never.
pub fn check_pending(file: &PendingFile) -> (r: (Option<PendingUpgrade>, bool))
    ensures
        r.1 == !(file is Absent),
        wire::optional_model(r.0) == match *file {
            PendingFile::Text(s) => recorded(json::parsed_text(s@)),
            _ => None,
        },
{
    match file {
        PendingFile::Absent => (None, false),
        PendingFile::Unreadable => (None, true),
        PendingFile::Text(s) => (read_recorded(json::parse_text(s.as_str())), true),
    }
}

/// The error that the running program's own path is not known.
pub fn unknown_executable(complaint: &str) -> (r: Error)
    ensures
        r@ == ErrorModel::Io("cannot determine current executable path: "@ + complaint@),
{
    Error::Io(joined("cannot determine current executable path: ", complaint))
}

/// What is wrong with a downloaded program: its status code or its digest.
pub open spec fn download_fault(
    code: u16,
    status: Seq<char>,
    digest: Seq<char>,
    expected: Seq<char>,
) -> Option<ErrorModel> {
    if !(200 <= code < 300) {
        Some(ErrorModel::Transport("artifact download returned HTTP "@ + status))
    } else if digest != expected {
        Some(ErrorModel::Sha256Mismatch { expected, actual: digest })
    } else {
        None
    }
}

/// Judges a downloaded program.
pub fn judge_download(code: u16, status: &str, bytes: &[u8], expected: &str) -> (r: Result<
    (),
    Error,
>)
    ensures
        match download_fault(
            code,
            status@,
            artifact::hex_text(artifact::sha256(bytes@)),
            expected@,
        ) {
            Some(e) => r is Err && r->Err_0@ == e,
            None => r is Ok,
        },
{
    if !(200 <= code && code < 300) {
        return Err(Error::Transport(joined("artifact download returned HTTP ", status)));
    }
    artifact::verify_digest(bytes, expected)
}

/// One step of replacing the program.
#[derive(Debug)]
pub enum FileStep {
    /// Copy a file.
    Copy { from: String, to: String },
    /// Write a text to a file.
    WriteText { path: String, text: String },
    /// Write the downloaded program to a file.
    WriteProgram { path: String },
    /// Let a file be executed.
    MakeExecutable { path: String },
    /// Move a file over another.
    Rename { from: String, to: String },
}

/// What a value of [`FileStep`] is.
#[verifier::ext_equal]
pub enum FileStepModel {
    Copy { from: Seq<char>, to: Seq<char> },
    WriteText { path: Seq<char>, text: Seq<char> },
    WriteProgram { path: Seq<char> },
    MakeExecutable { path: Seq<char> },
    Rename { from: Seq<char>, to: Seq<char> },
}

impl View for FileStep {
    type V = FileStepModel;

    open spec fn view(&self) -> FileStepModel {
        match self {
            FileStep::Copy { from, to } => FileStepModel::Copy { from: from@, to: to@ },
            FileStep::WriteText { path, text } => FileStepModel::WriteText {
                path: path@,
                text: text@,
            },
            FileStep::WriteProgram { path } => FileStepModel::WriteProgram { path: path@ },
            FileStep::MakeExecutable { path } => FileStepModel::MakeExecutable { path: path@ },
            FileStep::Rename { from, to } => FileStepModel::Rename { from: from@, to: to@ },
        }
    }
}

/// What a list of steps says.
pub open spec fn steps_view(s: Seq<FileStep>) -> Seq<FileStepModel> {
    Seq::new(s.len(), |i: int| s[i]@)
}

/// Where the program of a version is kept.
pub open spec fn backup_of(data_dir: Seq<char>, version: Seq<char>) -> Seq<char> {
    text::joined_path(data_dir, "vasal."@ + version + ".bak"@)
}

/// What is recorded of an upgrade.
pub open spec fn record_of(
    target: Seq<char>,
    current: Seq<char>,
    data_dir: Seq<char>,
    now_ms: i64,
) -> PendingUpgradeModel {
    PendingUpgradeModel {
        target_version: target,
        previous_version: current,
        rollback_path: backup_of(data_dir, current),
        initiated_at: now_ms,
    }
}

/// The steps of replacing the program at `exe`: keep it, record the upgrade, put
/// the new one beside it, and move that over it.
pub open spec fn replacement(
    target: Seq<char>,
    current: Seq<char>,
    data_dir: Seq<char>,
    exe: Seq<char>,
    now_ms: i64,
) -> Seq<FileStepModel> {
    let fresh = text::joined_path(data_dir, "vasal.new"@);
    seq![
        FileStepModel::Copy { from: exe, to: backup_of(data_dir, current) },
        FileStepModel::WriteText {
            path: text::joined_path(data_dir, STATE_FILE@),
            text: json::pretty_text(
                PendingUpgrade::tree(record_of(target, current, data_dir, now_ms)),
            ),
        },
        FileStepModel::WriteProgram { path: fresh },
        FileStepModel::MakeExecutable { path: fresh },
        FileStepModel::Rename { from: fresh, to: exe },
    ]
}

/// Plans the replacement of the program at `exe`. What is recorded is found
/// again after the restart.
pub fn plan_replacement(
    target_version: &str,
    current_version: &str,
    data_dir: &str,
    exe: &str,
    now_ms: i64,
) -> (r: Vec<FileStep>)
    ensures
        steps_view(r@) == replacement(
            target_version@,
            current_version@,
            data_dir@,
            exe@,
            now_ms,
        ),
        recorded(json::parsed_text(r@[1]@->text)) == Some(
            record_of(target_version@, current_version@, data_dir@, now_ms),
        ),
{
    let mut name: String = joined("vasal.", current_version);
    name.append(".bak");
    let backup = text::join_path(data_dir, name.as_str());
    let fresh = text::join_path(data_dir, "vasal.new");
    let record = PendingUpgrade {
        target_version: target_version.to_owned(),
        previous_version: current_version.to_owned(),
        rollback_path: backup.clone(),
        initiated_at: now_ms,
    };
    let written = wire::encode_text_pretty(&record);
    proof {
        assert(wire::decoded::<PendingUpgrade>(json::parsed_text(written@), "pending upgrade"@)
            == Ok::<PendingUpgradeModel, Seq<char>>(record.model()));
    }
    let mut steps: Vec<FileStep> = Vec::new();
    steps.push(FileStep::Copy { from: exe.to_owned(), to: backup });
    steps.push(
        FileStep::WriteText { path: text::join_path(data_dir, STATE_FILE), text: written },
    );
    steps.push(FileStep::WriteProgram { path: fresh.clone() });
    steps.push(FileStep::MakeExecutable { path: fresh.clone() });
    steps.push(FileStep::Rename { from: fresh, to: exe.to_owned() });
    proof {
        assert(steps_view(steps@) =~= replacement(
            target_version@,
            current_version@,
            data_dir@,
            exe@,
            now_ms,
        ));
    }
    steps
}

/// Plans the return to the program that an upgrade replaced.
pub fn rollback(pending: &PendingUpgrade, backup_exists: bool, exe: &str) -> (r: Result<
    FileStep,
    Error,
>)
    ensures
        if backup_exists {
            r is Ok && r->Ok_0@ == (FileStepModel::Rename {
                from: pending.rollback_path@,
                to: exe@,
            })
        } else {
            r is Err && r->Err_0@ == ErrorModel::Unit("rollback binary not found"@)
        },
{
    if !backup_exists {
        return Err(Error::Unit("rollback binary not found".to_owned()));
    }
    Ok(FileStep::Rename { from: pending.rollback_path.clone(), to: exe.to_owned() })
}

/// What becomes of an upgrade after the restart.
#[derive(Debug, Clone, Copy, PartialEq, Eq, Structural)]
pub enum Verdict {
    /// The new program is in place and is reported.
    Completed,
    /// The program that it replaced is put back.
    RollBack,
}

/// What becomes of an upgrade: it is completed where the version that was wanted
/// runs and could start its work.
pub open spec fn verdict_of(
    pending: PendingUpgradeModel,
    running: Seq<char>,
    started: bool,
) -> Verdict {
    if started && running == pending.target_version {
        Verdict::Completed
    } else {
        Verdict::RollBack
    }
}

/// Judges an upgrade after the restart, by the version that runs and by whether
/// it could start its work.
pub fn judge_pending(pending: &PendingUpgrade, running: &str, started: bool) -> (r: Verdict)
    ensures
        r == verdict_of(pending.model(), running@, started),
{
    if started && text::same(running, pending.target_version.as_str()) {
        Verdict::Completed
    } else {
        Verdict::RollBack
    }
}

/// What the audit trail is told of a completed upgrade.
pub fn completed_detail(pending: &PendingUpgrade) -> (r: Json)
    ensures
        r@ == JsonView::Object(
            Map::<Seq<char>, JsonView>::empty().insert(
                "version"@,
                JsonView::Text(pending.target_version@),
            ).insert("previous_version"@, JsonView::Text(pending.previous_version@)),
        ),
{
    let mut detail = JsonObject::new();
    detail.set("version", Json::text(pending.target_version.as_str()));
    detail.set("previous_version", Json::text(pending.previous_version.as_str()));
    detail.finish()
}

/// An upgrade that was planned is judged after the restart by what was planned:
/// only the target version, started, completes it. Otherwise the way back leads
/// to the program that was kept when the plan was carried out.
pub proof fn law_upgrade_completes_or_goes_back(
    target: Seq<char>,
    current: Seq<char>,
    data_dir: Seq<char>,
    exe: Seq<char>,
    now_ms: i64,
    running: Seq<char>,
    started: bool,
)
    ensures
        ({
            let record = record_of(target, current, data_dir, now_ms);
            let steps = replacement(target, current, data_dir, exe, now_ms);
            &&& verdict_of(record, running, started) == Verdict::Completed <==> running == target
                && started
            &&& verdict_of(record, running, started) == Verdict::RollBack <==> !(running == target
                && started)
            &&& steps[0] == (FileStepModel::Copy { from: exe, to: record.rollback_path })
        }),
{
}

/// The program is touched by the last step alone: before that it has been kept,
/// under the path that the record names, and a rollback moves it back.
pub proof fn law_program_is_kept_before_it_is_replaced(
    target: Seq<char>,
    current: Seq<char>,
    data_dir: Seq<char>,
    exe: Seq<char>,
    now_ms: i64,
)
    ensures
        ({
            let steps = replacement(target, current, data_dir, exe, now_ms);
            let record = record_of(target, current, data_dir, now_ms);
            &&& steps[0] == (FileStepModel::Copy { from: exe, to: record.rollback_path })
            &&& steps[1] is WriteText
            &&& forall|i: int|
                0 <= i < steps.len() && (#[trigger] steps[i]) is Rename ==> i == steps.len() - 1
            &&& steps.last() is Rename && steps.last()->Rename_to == exe
        }),
{
}

/// A download is good exactly where it was answered with success and its digest
/// is the one that is expected; the error says which of the two it was.
pub proof fn law_download_is_good_by_status_and_digest(
    code: u16,
    status: Seq<char>,
    digest: Seq<char>,
    expected: Seq<char>,
)
    ensures
        ({
            let r = download_fault(code, status, digest, expected);
            &&& r is None <==> 200 <= code < 300 && digest == expected
            &&& !(200 <= code < 300) ==> r == Some(
                ErrorModel::Transport("artifact download returned HTTP "@ + status),
            )
            &&& 200 <= code < 300 && digest != expected ==> r == Some(
                ErrorModel::Sha256Mismatch { expected, actual: digest },
            )
        }),
{
}

/// What is recorded of an upgrade is what is done: the version that is wanted,
/// the one that runs, when it began, and where the program of the one that runs
/// is kept, below the data directory under its version.
pub proof fn law_record_says_what_is_done(
    target: Seq<char>,
    current: Seq<char>,
    data_dir: Seq<char>,
    exe: Seq<char>,
    now_ms: i64,
)
    ensures
        ({
            let record = record_of(target, current, data_dir, now_ms);
            let steps = replacement(target, current, data_dir, exe, now_ms);
            let fresh = text::joined_path(data_dir, "vasal.new"@);
            &&& record.target_version == target
            &&& record.previous_version == current
            &&& record.initiated_at == now_ms
            &&& record.rollback_path == text::joined_path(
                data_dir,
                "vasal."@ + current + ".bak"@,
            )
            &&& steps.len() == 5
            &&& steps[0] == (FileStepModel::Copy { from: exe, to: record.rollback_path })
            &&& steps[1] == (FileStepModel::WriteText {
                path: text::joined_path(data_dir, "pending-upgrade.json"@),
                text: json::pretty_text(PendingUpgrade::tree(record)),
            })
            &&& steps[2] == (FileStepModel::WriteProgram { path: fresh })
            &&& steps[3] == (FileStepModel::MakeExecutable { path: fresh })
            &&& steps[4] == (FileStepModel::Rename { from: fresh, to: exe })
        }),
{
}

/// A record is used exactly where it can be read, and then as it was written.
pub proof fn law_readable_record_is_used(parsed: Result<JsonView, Seq<char>>)
    ensures
        ({
            let read = wire::decoded::<PendingUpgrade>(parsed, "pending upgrade"@);
            &&& recorded(parsed) is Some <==> read is Ok
            &&& recorded(parsed) is Some ==> recorded(parsed)->0 == read->Ok_0
        }),
{
}

} // verus!
