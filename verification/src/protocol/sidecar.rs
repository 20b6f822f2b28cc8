//! What sidecars answer.

use crate::json::{self, Json, JsonObject, JsonView};
use crate::text;
use crate::wire::{self, DecodeError, Fault, Form, Wire};
use vstd::prelude::*;
use vstd::string::*;

verus! {

/// Answer to `submit`: done, failed, or accepted and to be polled.
#[derive(Debug, Clone, PartialEq)]
pub enum SubmitResponse {
    /// Done.
    Completed {
        stdout: String,
        stderr: String,
        truncated: bool,
    },
    /// Failed.
    Failed {
        error: String,
        stderr: String,
    },
    /// Taken on; `status` tells how it goes.
    Accepted {
        task_id: String,
    },
}

/// What a value of [`SubmitResponse`] is.
#[verifier::ext_equal]
pub enum SubmitResponseModel {
    Completed { stdout: Seq<char>, stderr: Seq<char>, truncated: bool },
    Failed { error: Seq<char>, stderr: Seq<char> },
    Accepted { task_id: Seq<char> },
}

impl Wire for SubmitResponse {
    type Model = SubmitResponseModel;

    open spec fn model(&self) -> SubmitResponseModel {
        match self {
            SubmitResponse::Completed { stdout, stderr, truncated } => SubmitResponseModel::Completed {
                stdout: stdout.model(),
                stderr: stderr.model(),
                truncated: truncated.model(),
            },
            SubmitResponse::Failed { error, stderr } => SubmitResponseModel::Failed {
                error: error.model(),
                stderr: stderr.model(),
            },
            SubmitResponse::Accepted { task_id } => SubmitResponseModel::Accepted {
                task_id: task_id.model(),
            },
        }
    }

    open spec fn tree(m: SubmitResponseModel) -> JsonView {
        match m {
            SubmitResponseModel::Completed { stdout, stderr, truncated } => {
                let o = Map::<Seq<char>, JsonView>::empty();
                let o = o.insert("status"@, JsonView::Text("completed"@));
                let o = o.insert("stdout"@, String::tree(stdout));
                let o = o.insert("stderr"@, String::tree(stderr));
                let o = o.insert("truncated"@, bool::tree(truncated));
                JsonView::Object(o)
            },
            SubmitResponseModel::Failed { error, stderr } => {
                let o = Map::<Seq<char>, JsonView>::empty();
                let o = o.insert("status"@, JsonView::Text("failed"@));
                let o = o.insert("error"@, String::tree(error));
                let o = o.insert("stderr"@, String::tree(stderr));
                JsonView::Object(o)
            },
            SubmitResponseModel::Accepted { task_id } => {
                let o = Map::<Seq<char>, JsonView>::empty();
                let o = o.insert("status"@, JsonView::Text("accepted"@));
                let o = o.insert("task_id"@, String::tree(task_id));
                JsonView::Object(o)
            },
        }
    }

    open spec fn read(t: JsonView, at: Seq<char>, form: Form) -> Result<SubmitResponseModel, Fault> {
        let tag = wire::tag_in(t, "status"@, seq!["completed"@, "failed"@, "accepted"@], form);
        let t = wire::untagged(t);
        if !(t is Object || t is Array) {
            Err(Fault::Invalid(at))
        } else if tag is Err {
            Err(tag->Err_0)
        } else if tag->Ok_0 == "completed"@ {
            let t = wire::unlisted(
                t,
                seq!["stdout"@, "stderr"@, "truncated"@],
                0,
                Form::Buffered,
            );
            let stdout = wire::read_or::<String>(t, "stdout"@, Seq::<char>::empty(), Form::Buffered);
            let stderr = wire::read_or::<String>(t, "stderr"@, Seq::<char>::empty(), Form::Buffered);
            let truncated = wire::read_or::<bool>(t, "truncated"@, false, Form::Buffered);
            if !(t is Object) {
                Err(Fault::Invalid(at))
            } else if stdout is Err {
                Err(stdout->Err_0)
            } else if stderr is Err {
                Err(stderr->Err_0)
            } else if truncated is Err {
                Err(truncated->Err_0)
            } else {
                Ok(SubmitResponseModel::Completed {
                    stdout: stdout->Ok_0,
                    stderr: stderr->Ok_0,
                    truncated: truncated->Ok_0,
                })
            }
        } else if tag->Ok_0 == "failed"@ {
            let t = wire::unlisted(
                t,
                seq!["error"@, "stderr"@],
                1,
                Form::Buffered,
            );
            let error = wire::read_required::<String>(t, "error"@, Form::Buffered);
            let stderr = wire::read_or::<String>(t, "stderr"@, Seq::<char>::empty(), Form::Buffered);
            if !(t is Object) {
                Err(Fault::Invalid(at))
            } else if error is Err {
                Err(error->Err_0)
            } else if stderr is Err {
                Err(stderr->Err_0)
            } else {
                Ok(SubmitResponseModel::Failed {
                    error: error->Ok_0,
                    stderr: stderr->Ok_0,
                })
            }
        } else if tag->Ok_0 == "accepted"@ {
            let t = wire::unlisted(
                t,
                seq!["task_id"@],
                1,
                Form::Buffered,
            );
            let task_id = wire::read_required::<String>(t, "task_id"@, Form::Buffered);
            if !(t is Object) {
                Err(Fault::Invalid(at))
            } else if task_id is Err {
                Err(task_id->Err_0)
            } else {
                Ok(SubmitResponseModel::Accepted {
                    task_id: task_id->Ok_0,
                })
            }
        } else {
            Err(Fault::Invalid("status"@))
        }
    }

    open spec fn lossless(m: SubmitResponseModel) -> bool {
        match m {
            SubmitResponseModel::Completed { stdout, stderr, truncated } => String::lossless(stdout) && String::lossless(stderr) && bool::lossless(truncated),
            SubmitResponseModel::Failed { error, stderr } => String::lossless(error) && String::lossless(stderr),
            SubmitResponseModel::Accepted { task_id } => String::lossless(task_id),
        }
    }

    open spec fn fits(m: SubmitResponseModel, depth: nat) -> bool {
        depth > 0 && match m {
            SubmitResponseModel::Completed { stdout, stderr, truncated } => String::fits(stdout, (depth - 1) as nat) && String::fits(stderr, (depth - 1) as nat) && bool::fits(truncated, (depth - 1) as nat),
            SubmitResponseModel::Failed { error, stderr } => String::fits(error, (depth - 1) as nat) && String::fits(stderr, (depth - 1) as nat),
            SubmitResponseModel::Accepted { task_id } => String::fits(task_id, (depth - 1) as nat),
        }
    }

    fn to_json(&self) -> (r: Json) {
        match self {
            SubmitResponse::Completed { stdout, stderr, truncated } => {
                let mut o = JsonObject::new();
                o.set("status", Json::text("completed"));
                o.set("stdout", stdout.to_json());
                o.set("stderr", stderr.to_json());
                o.set("truncated", truncated.to_json());
                o.finish()
            },
            SubmitResponse::Failed { error, stderr } => {
                let mut o = JsonObject::new();
                o.set("status", Json::text("failed"));
                o.set("error", error.to_json());
                o.set("stderr", stderr.to_json());
                o.finish()
            },
            SubmitResponse::Accepted { task_id } => {
                let mut o = JsonObject::new();
                o.set("status", Json::text("accepted"));
                o.set("task_id", task_id.to_json());
                o.finish()
            },
        }
    }

    fn from_json(j: &Json, at: &str, form: Form) -> (r: Result<SubmitResponse, DecodeError>) {
        if !j.is_object() && !j.is_array() {
            return Err(DecodeError::Invalid(at.to_owned()));
        }
        let names = ["completed", "failed", "accepted"];
        proof {
            assert(wire::strs(names@) =~= seq!["completed"@, "failed"@, "accepted"@]);
        }
        let tag = match wire::tag_of(j, "status", &names, form) {
            Ok(x) => x,
            Err(e) => return Err(e),
        };
        let rest = wire::untag(j);
        let j = match &rest {
            Some(o) => o,
            None => j,
        };
        if text::same(tag.as_str(), "completed") {
            let names = ["stdout", "stderr", "truncated"];
            let listed = wire::unlist(j, &names, 0, Form::Buffered);
            let j = match &listed {
                Some(o) => o,
                None => j,
            };
            proof {
                assert(wire::strs(names@) =~= seq!["stdout"@, "stderr"@, "truncated"@]);
            }
            if !j.is_object() {
                return Err(DecodeError::Invalid(at.to_owned()));
            }
            let stdout = match wire::defaulted::<String>(j, "stdout", String::new(), Form::Buffered) {
                Ok(x) => x,
                Err(e) => return Err(e),
            };
            let stderr = match wire::defaulted::<String>(j, "stderr", String::new(), Form::Buffered) {
                Ok(x) => x,
                Err(e) => return Err(e),
            };
            let truncated = match wire::defaulted::<bool>(j, "truncated", false, Form::Buffered) {
                Ok(x) => x,
                Err(e) => return Err(e),
            };
            Ok(SubmitResponse::Completed { stdout, stderr, truncated })
        } else if text::same(tag.as_str(), "failed") {
            let names = ["error", "stderr"];
            let listed = wire::unlist(j, &names, 1, Form::Buffered);
            let j = match &listed {
                Some(o) => o,
                None => j,
            };
            proof {
                assert(wire::strs(names@) =~= seq!["error"@, "stderr"@]);
            }
            if !j.is_object() {
                return Err(DecodeError::Invalid(at.to_owned()));
            }
            let error = match wire::required::<String>(j, "error", Form::Buffered) {
                Ok(x) => x,
                Err(e) => return Err(e),
            };
            let stderr = match wire::defaulted::<String>(j, "stderr", String::new(), Form::Buffered) {
                Ok(x) => x,
                Err(e) => return Err(e),
            };
            Ok(SubmitResponse::Failed { error, stderr })
        } else if text::same(tag.as_str(), "accepted") {
            let names = ["task_id"];
            let listed = wire::unlist(j, &names, 1, Form::Buffered);
            let j = match &listed {
                Some(o) => o,
                None => j,
            };
            proof {
                assert(wire::strs(names@) =~= seq!["task_id"@]);
            }
            if !j.is_object() {
                return Err(DecodeError::Invalid(at.to_owned()));
            }
            let task_id = match wire::required::<String>(j, "task_id", Form::Buffered) {
                Ok(x) => x,
                Err(e) => return Err(e),
            };
            Ok(SubmitResponse::Accepted { task_id })
        } else {
            Err(DecodeError::Invalid("status".to_owned()))
        }
    }

    proof fn law_reads_what_it_writes(m: SubmitResponseModel, at: Seq<char>, form: Form) {
        reveal_strlit("completed");
        reveal_strlit("failed");
        reveal_strlit("accepted");
        assert("completed"@.len() == 9);
        assert("failed"@.len() == 6);
        assert("accepted"@.len() == 8);
        let t = SubmitResponse::tree(m);
        match m {
            SubmitResponseModel::Completed { stdout, stderr, truncated } => {
                reveal_strlit("status");
                reveal_strlit("stdout");
                reveal_strlit("stderr");
                reveal_strlit("truncated");
                assert("status"@.len() == 6);
                assert("stdout"@.len() == 6);
                assert("stderr"@.len() == 6);
                assert("truncated"@.len() == 9);
                assert("status"@[2] != "stdout"@[2]);
                assert("status"@[2] != "stderr"@[2]);
                assert("stdout"@[3] != "stderr"@[3]);
                String::law_reads_what_it_writes(stdout, "stdout"@, Form::Buffered);
                String::law_reads_what_it_writes(stderr, "stderr"@, Form::Buffered);
                bool::law_reads_what_it_writes(truncated, "truncated"@, Form::Buffered);
                assert(t.field("status"@) == Some(JsonView::Text("completed"@)));
                assert(t.field("stdout"@) == Some(String::tree(stdout)));
                assert(t.field("stderr"@) == Some(String::tree(stderr)));
                assert(t.field("truncated"@) == Some(bool::tree(truncated)));
            },
            SubmitResponseModel::Failed { error, stderr } => {
                reveal_strlit("status");
                reveal_strlit("error");
                reveal_strlit("stderr");
                assert("status"@.len() == 6);
                assert("error"@.len() == 5);
                assert("stderr"@.len() == 6);
                assert("status"@[2] != "stderr"@[2]);
                String::law_reads_what_it_writes(error, "error"@, Form::Buffered);
                String::law_reads_what_it_writes(stderr, "stderr"@, Form::Buffered);
                assert(t.field("status"@) == Some(JsonView::Text("failed"@)));
                assert(t.field("error"@) == Some(String::tree(error)));
                assert(t.field("stderr"@) == Some(String::tree(stderr)));
            },
            SubmitResponseModel::Accepted { task_id } => {
                reveal_strlit("status");
                reveal_strlit("task_id");
                assert("status"@.len() == 6);
                assert("task_id"@.len() == 7);
                String::law_reads_what_it_writes(task_id, "task_id"@, Form::Buffered);
                assert(t.field("status"@) == Some(JsonView::Text("accepted"@)));
                assert(t.field("task_id"@) == Some(String::tree(task_id)));
            },
        }
    }

    proof fn law_fits(m: SubmitResponseModel, depth: nat) {
        let inner = (depth - 1) as nat;
        match m {
            SubmitResponseModel::Completed { stdout, stderr, truncated } => {
                let o = Map::<Seq<char>, JsonView>::empty();
                let v = JsonView::Text("completed"@);
                json::lemma_insert_within(o, "status"@, v, inner);
                let o = o.insert("status"@, v);
                String::law_fits(stdout, inner);
                let v = String::tree(stdout);
                json::lemma_insert_within(o, "stdout"@, v, inner);
                let o = o.insert("stdout"@, v);
                String::law_fits(stderr, inner);
                let v = String::tree(stderr);
                json::lemma_insert_within(o, "stderr"@, v, inner);
                let o = o.insert("stderr"@, v);
                bool::law_fits(truncated, inner);
                let v = bool::tree(truncated);
                json::lemma_insert_within(o, "truncated"@, v, inner);
                let o = o.insert("truncated"@, v);
            },
            SubmitResponseModel::Failed { error, stderr } => {
                let o = Map::<Seq<char>, JsonView>::empty();
                let v = JsonView::Text("failed"@);
                json::lemma_insert_within(o, "status"@, v, inner);
                let o = o.insert("status"@, v);
                String::law_fits(error, inner);
                let v = String::tree(error);
                json::lemma_insert_within(o, "error"@, v, inner);
                let o = o.insert("error"@, v);
                String::law_fits(stderr, inner);
                let v = String::tree(stderr);
                json::lemma_insert_within(o, "stderr"@, v, inner);
                let o = o.insert("stderr"@, v);
            },
            SubmitResponseModel::Accepted { task_id } => {
                let o = Map::<Seq<char>, JsonView>::empty();
                let v = JsonView::Text("accepted"@);
                json::lemma_insert_within(o, "status"@, v, inner);
                let o = o.insert("status"@, v);
                String::law_fits(task_id, inner);
                let v = String::tree(task_id);
                json::lemma_insert_within(o, "task_id"@, v, inner);
                let o = o.insert("task_id"@, v);
            },
        }
    }
}

impl SubmitResponse {
    /// Whether there is nothing left to poll for.
    pub fn is_terminal(&self) -> (r: bool)
        ensures
            r == !(self is Accepted),
    {
        match self {
            SubmitResponse::Accepted { .. } => false,
            _ => true,
        }
    }
}

/// Parameters of `status`.
#[derive(Debug, Clone, PartialEq)]
pub struct StatusParams {
    /// The sidecar's name for the task.
    pub task_id: String,
}

/// What a value of [`StatusParams`] is.
#[verifier::ext_equal]
pub struct StatusParamsModel {
    pub task_id: Seq<char>,
}

impl Wire for StatusParams {
    type Model = StatusParamsModel;

    open spec fn model(&self) -> StatusParamsModel {
        StatusParamsModel {
            task_id: self.task_id.model(),
        }
    }

    open spec fn tree(m: StatusParamsModel) -> JsonView {
        let o = Map::<Seq<char>, JsonView>::empty();
        let o = o.insert("task_id"@, String::tree(m.task_id));
        JsonView::Object(o)
    }

    open spec fn read(t: JsonView, at: Seq<char>, form: Form) -> Result<StatusParamsModel, Fault> {
        let t = wire::unlisted(t, seq!["task_id"@], 1, form);
        let task_id = wire::read_required::<String>(t, "task_id"@, form);
        if !(t is Object) {
            Err(Fault::Invalid(at))
        } else if task_id is Err {
            Err(task_id->Err_0)
        } else {
            Ok(StatusParamsModel {
                task_id: task_id->Ok_0,
            })
        }
    }

    open spec fn lossless(m: StatusParamsModel) -> bool {
        &&& String::lossless(m.task_id)
    }

    open spec fn fits(m: StatusParamsModel, depth: nat) -> bool {
        &&& depth > 0
        &&& String::fits(m.task_id, (depth - 1) as nat)
    }

    fn to_json(&self) -> (r: Json) {
        let mut o = JsonObject::new();
        o.set("task_id", self.task_id.to_json());
        o.finish()
    }

    fn from_json(j: &Json, at: &str, form: Form) -> (r: Result<StatusParams, DecodeError>) {
        let names = ["task_id"];
        let listed = wire::unlist(j, &names, 1, form);
        let j = match &listed {
            Some(o) => o,
            None => j,
        };
        proof {
            assert(wire::strs(names@) =~= seq!["task_id"@]);
        }
        if !j.is_object() {
            return Err(DecodeError::Invalid(at.to_owned()));
        }
        let task_id = match wire::required::<String>(j, "task_id", form) {
            Ok(x) => x,
            Err(e) => return Err(e),
        };
        Ok(StatusParams { task_id })
    }

    proof fn law_reads_what_it_writes(m: StatusParamsModel, at: Seq<char>, form: Form) {
        reveal_strlit("task_id");
        assert("task_id"@.len() == 7);
        String::law_reads_what_it_writes(m.task_id, "task_id"@, form);
        let t = StatusParams::tree(m);
        assert(t.field("task_id"@) == Some(String::tree(m.task_id)));
    }

    proof fn law_fits(m: StatusParamsModel, depth: nat) {
        let inner = (depth - 1) as nat;
        let o = Map::<Seq<char>, JsonView>::empty();
        String::law_fits(m.task_id, inner);
        let v = String::tree(m.task_id);
        json::lemma_insert_within(o, "task_id"@, v, inner);
        let o = o.insert("task_id"@, v);
    }
}

/// Answer to `status`.
#[derive(Debug, Clone, PartialEq)]
pub enum StatusResponse {
    /// Still at it.
    Running,
    /// Done.
    Completed {
        stdout: String,
        stderr: String,
        truncated: bool,
    },
    /// Failed.
    Failed {
        error: String,
        stderr: String,
    },
    /// Given up on request.
    Cancelled,
}

/// What a value of [`StatusResponse`] is.
#[verifier::ext_equal]
pub enum StatusResponseModel {
    Running,
    Completed { stdout: Seq<char>, stderr: Seq<char>, truncated: bool },
    Failed { error: Seq<char>, stderr: Seq<char> },
    Cancelled,
}

impl Wire for StatusResponse {
    type Model = StatusResponseModel;

    open spec fn model(&self) -> StatusResponseModel {
        match self {
            StatusResponse::Running => StatusResponseModel::Running,
            StatusResponse::Completed { stdout, stderr, truncated } => StatusResponseModel::Completed {
                stdout: stdout.model(),
                stderr: stderr.model(),
                truncated: truncated.model(),
            },
            StatusResponse::Failed { error, stderr } => StatusResponseModel::Failed {
                error: error.model(),
                stderr: stderr.model(),
            },
            StatusResponse::Cancelled => StatusResponseModel::Cancelled,
        }
    }

    open spec fn tree(m: StatusResponseModel) -> JsonView {
        match m {
            StatusResponseModel::Running => {
                let o = Map::<Seq<char>, JsonView>::empty();
                let o = o.insert("status"@, JsonView::Text("running"@));
                JsonView::Object(o)
            },
            StatusResponseModel::Completed { stdout, stderr, truncated } => {
                let o = Map::<Seq<char>, JsonView>::empty();
                let o = o.insert("status"@, JsonView::Text("completed"@));
                let o = o.insert("stdout"@, String::tree(stdout));
                let o = o.insert("stderr"@, String::tree(stderr));
                let o = o.insert("truncated"@, bool::tree(truncated));
                JsonView::Object(o)
            },
            StatusResponseModel::Failed { error, stderr } => {
                let o = Map::<Seq<char>, JsonView>::empty();
                let o = o.insert("status"@, JsonView::Text("failed"@));
                let o = o.insert("error"@, String::tree(error));
                let o = o.insert("stderr"@, String::tree(stderr));
                JsonView::Object(o)
            },
            StatusResponseModel::Cancelled => {
                let o = Map::<Seq<char>, JsonView>::empty();
                let o = o.insert("status"@, JsonView::Text("cancelled"@));
                JsonView::Object(o)
            },
        }
    }

    open spec fn read(t: JsonView, at: Seq<char>, form: Form) -> Result<StatusResponseModel, Fault> {
        let tag = wire::tag_in(
            t,
            "status"@,
            seq!["running"@, "completed"@, "failed"@, "cancelled"@],
            form,
        );
        let t = wire::untagged(t);
        if !(t is Object || t is Array) {
            Err(Fault::Invalid(at))
        } else if tag is Err {
            Err(tag->Err_0)
        } else if tag->Ok_0 == "running"@ {
            Ok(StatusResponseModel::Running)
        } else if tag->Ok_0 == "completed"@ {
            let t = wire::unlisted(
                t,
                seq!["stdout"@, "stderr"@, "truncated"@],
                0,
                Form::Buffered,
            );
            let stdout = wire::read_or::<String>(t, "stdout"@, Seq::<char>::empty(), Form::Buffered);
            let stderr = wire::read_or::<String>(t, "stderr"@, Seq::<char>::empty(), Form::Buffered);
            let truncated = wire::read_or::<bool>(t, "truncated"@, false, Form::Buffered);
            if !(t is Object) {
                Err(Fault::Invalid(at))
            } else if stdout is Err {
                Err(stdout->Err_0)
            } else if stderr is Err {
                Err(stderr->Err_0)
            } else if truncated is Err {
                Err(truncated->Err_0)
            } else {
                Ok(StatusResponseModel::Completed {
                    stdout: stdout->Ok_0,
                    stderr: stderr->Ok_0,
                    truncated: truncated->Ok_0,
                })
            }
        } else if tag->Ok_0 == "failed"@ {
            let t = wire::unlisted(
                t,
                seq!["error"@, "stderr"@],
                1,
                Form::Buffered,
            );
            let error = wire::read_required::<String>(t, "error"@, Form::Buffered);
            let stderr = wire::read_or::<String>(t, "stderr"@, Seq::<char>::empty(), Form::Buffered);
            if !(t is Object) {
                Err(Fault::Invalid(at))
            } else if error is Err {
                Err(error->Err_0)
            } else if stderr is Err {
                Err(stderr->Err_0)
            } else {
                Ok(StatusResponseModel::Failed {
                    error: error->Ok_0,
                    stderr: stderr->Ok_0,
                })
            }
        } else if tag->Ok_0 == "cancelled"@ {
            Ok(StatusResponseModel::Cancelled)
        } else {
            Err(Fault::Invalid("status"@))
        }
    }

    open spec fn lossless(m: StatusResponseModel) -> bool {
        match m {
            StatusResponseModel::Running => true,
            StatusResponseModel::Completed { stdout, stderr, truncated } => String::lossless(stdout) && String::lossless(stderr) && bool::lossless(truncated),
            StatusResponseModel::Failed { error, stderr } => String::lossless(error) && String::lossless(stderr),
            StatusResponseModel::Cancelled => true,
        }
    }

    open spec fn fits(m: StatusResponseModel, depth: nat) -> bool {
        depth > 0 && match m {
            StatusResponseModel::Running => true,
            StatusResponseModel::Completed { stdout, stderr, truncated } => String::fits(stdout, (depth - 1) as nat) && String::fits(stderr, (depth - 1) as nat) && bool::fits(truncated, (depth - 1) as nat),
            StatusResponseModel::Failed { error, stderr } => String::fits(error, (depth - 1) as nat) && String::fits(stderr, (depth - 1) as nat),
            StatusResponseModel::Cancelled => true,
        }
    }

    fn to_json(&self) -> (r: Json) {
        match self {
            StatusResponse::Running => {
                let mut o = JsonObject::new();
                o.set("status", Json::text("running"));
                o.finish()
            },
            StatusResponse::Completed { stdout, stderr, truncated } => {
                let mut o = JsonObject::new();
                o.set("status", Json::text("completed"));
                o.set("stdout", stdout.to_json());
                o.set("stderr", stderr.to_json());
                o.set("truncated", truncated.to_json());
                o.finish()
            },
            StatusResponse::Failed { error, stderr } => {
                let mut o = JsonObject::new();
                o.set("status", Json::text("failed"));
                o.set("error", error.to_json());
                o.set("stderr", stderr.to_json());
                o.finish()
            },
            StatusResponse::Cancelled => {
                let mut o = JsonObject::new();
                o.set("status", Json::text("cancelled"));
                o.finish()
            },
        }
    }

    fn from_json(j: &Json, at: &str, form: Form) -> (r: Result<StatusResponse, DecodeError>) {
        if !j.is_object() && !j.is_array() {
            return Err(DecodeError::Invalid(at.to_owned()));
        }
        let names = ["running", "completed", "failed", "cancelled"];
        proof {
            assert(wire::strs(names@) =~= seq!["running"@, "completed"@, "failed"@, "cancelled"@]);
        }
        let tag = match wire::tag_of(j, "status", &names, form) {
            Ok(x) => x,
            Err(e) => return Err(e),
        };
        let rest = wire::untag(j);
        let j = match &rest {
            Some(o) => o,
            None => j,
        };
        if text::same(tag.as_str(), "running") {
            Ok(StatusResponse::Running)
        } else if text::same(tag.as_str(), "completed") {
            let names = ["stdout", "stderr", "truncated"];
            let listed = wire::unlist(j, &names, 0, Form::Buffered);
            let j = match &listed {
                Some(o) => o,
                None => j,
            };
            proof {
                assert(wire::strs(names@) =~= seq!["stdout"@, "stderr"@, "truncated"@]);
            }
            if !j.is_object() {
                return Err(DecodeError::Invalid(at.to_owned()));
            }
            let stdout = match wire::defaulted::<String>(j, "stdout", String::new(), Form::Buffered) {
                Ok(x) => x,
                Err(e) => return Err(e),
            };
            let stderr = match wire::defaulted::<String>(j, "stderr", String::new(), Form::Buffered) {
                Ok(x) => x,
                Err(e) => return Err(e),
            };
            let truncated = match wire::defaulted::<bool>(j, "truncated", false, Form::Buffered) {
                Ok(x) => x,
                Err(e) => return Err(e),
            };
            Ok(StatusResponse::Completed { stdout, stderr, truncated })
        } else if text::same(tag.as_str(), "failed") {
            let names = ["error", "stderr"];
            let listed = wire::unlist(j, &names, 1, Form::Buffered);
            let j = match &listed {
                Some(o) => o,
                None => j,
            };
            proof {
                assert(wire::strs(names@) =~= seq!["error"@, "stderr"@]);
            }
            if !j.is_object() {
                return Err(DecodeError::Invalid(at.to_owned()));
            }
            let error = match wire::required::<String>(j, "error", Form::Buffered) {
                Ok(x) => x,
                Err(e) => return Err(e),
            };
            let stderr = match wire::defaulted::<String>(j, "stderr", String::new(), Form::Buffered) {
                Ok(x) => x,
                Err(e) => return Err(e),
            };
            Ok(StatusResponse::Failed { error, stderr })
        } else if text::same(tag.as_str(), "cancelled") {
            Ok(StatusResponse::Cancelled)
        } else {
            Err(DecodeError::Invalid("status".to_owned()))
        }
    }

    proof fn law_reads_what_it_writes(m: StatusResponseModel, at: Seq<char>, form: Form) {
        reveal_strlit("running");
        reveal_strlit("completed");
        reveal_strlit("failed");
        reveal_strlit("cancelled");
        assert("running"@.len() == 7);
        assert("completed"@.len() == 9);
        assert("failed"@.len() == 6);
        assert("cancelled"@.len() == 9);
        assert("completed"@[1] != "cancelled"@[1]);
        let t = StatusResponse::tree(m);
        match m {
            StatusResponseModel::Running => {
                reveal_strlit("status");
                assert("status"@.len() == 6);
                assert(t.field("status"@) == Some(JsonView::Text("running"@)));
            },
            StatusResponseModel::Completed { stdout, stderr, truncated } => {
                reveal_strlit("status");
                reveal_strlit("stdout");
                reveal_strlit("stderr");
                reveal_strlit("truncated");
                assert("status"@.len() == 6);
                assert("stdout"@.len() == 6);
                assert("stderr"@.len() == 6);
                assert("truncated"@.len() == 9);
                assert("status"@[2] != "stdout"@[2]);
                assert("status"@[2] != "stderr"@[2]);
                assert("stdout"@[3] != "stderr"@[3]);
                String::law_reads_what_it_writes(stdout, "stdout"@, Form::Buffered);
                String::law_reads_what_it_writes(stderr, "stderr"@, Form::Buffered);
                bool::law_reads_what_it_writes(truncated, "truncated"@, Form::Buffered);
                assert(t.field("status"@) == Some(JsonView::Text("completed"@)));
                assert(t.field("stdout"@) == Some(String::tree(stdout)));
                assert(t.field("stderr"@) == Some(String::tree(stderr)));
                assert(t.field("truncated"@) == Some(bool::tree(truncated)));
            },
            StatusResponseModel::Failed { error, stderr } => {
                reveal_strlit("status");
                reveal_strlit("error");
                reveal_strlit("stderr");
                assert("status"@.len() == 6);
                assert("error"@.len() == 5);
                assert("stderr"@.len() == 6);
                assert("status"@[2] != "stderr"@[2]);
                String::law_reads_what_it_writes(error, "error"@, Form::Buffered);
                String::law_reads_what_it_writes(stderr, "stderr"@, Form::Buffered);
                assert(t.field("status"@) == Some(JsonView::Text("failed"@)));
                assert(t.field("error"@) == Some(String::tree(error)));
                assert(t.field("stderr"@) == Some(String::tree(stderr)));
            },
            StatusResponseModel::Cancelled => {
                reveal_strlit("status");
                assert("status"@.len() == 6);
                assert(t.field("status"@) == Some(JsonView::Text("cancelled"@)));
            },
        }
    }

    proof fn law_fits(m: StatusResponseModel, depth: nat) {
        let inner = (depth - 1) as nat;
        match m {
            StatusResponseModel::Running => {
                let o = Map::<Seq<char>, JsonView>::empty();
                let v = JsonView::Text("running"@);
                json::lemma_insert_within(o, "status"@, v, inner);
                let o = o.insert("status"@, v);
            },
            StatusResponseModel::Completed { stdout, stderr, truncated } => {
                let o = Map::<Seq<char>, JsonView>::empty();
                let v = JsonView::Text("completed"@);
                json::lemma_insert_within(o, "status"@, v, inner);
                let o = o.insert("status"@, v);
                String::law_fits(stdout, inner);
                let v = String::tree(stdout);
                json::lemma_insert_within(o, "stdout"@, v, inner);
                let o = o.insert("stdout"@, v);
                String::law_fits(stderr, inner);
                let v = String::tree(stderr);
                json::lemma_insert_within(o, "stderr"@, v, inner);
                let o = o.insert("stderr"@, v);
                bool::law_fits(truncated, inner);
                let v = bool::tree(truncated);
                json::lemma_insert_within(o, "truncated"@, v, inner);
                let o = o.insert("truncated"@, v);
            },
            StatusResponseModel::Failed { error, stderr } => {
                let o = Map::<Seq<char>, JsonView>::empty();
                let v = JsonView::Text("failed"@);
                json::lemma_insert_within(o, "status"@, v, inner);
                let o = o.insert("status"@, v);
                String::law_fits(error, inner);
                let v = String::tree(error);
                json::lemma_insert_within(o, "error"@, v, inner);
                let o = o.insert("error"@, v);
                String::law_fits(stderr, inner);
                let v = String::tree(stderr);
                json::lemma_insert_within(o, "stderr"@, v, inner);
                let o = o.insert("stderr"@, v);
            },
            StatusResponseModel::Cancelled => {
                let o = Map::<Seq<char>, JsonView>::empty();
                let v = JsonView::Text("cancelled"@);
                json::lemma_insert_within(o, "status"@, v, inner);
                let o = o.insert("status"@, v);
            },
        }
    }
}

impl StatusResponse {
    /// Whether there is nothing left to poll for.
    pub fn is_terminal(&self) -> (r: bool)
        ensures
            r == !(self is Running),
    {
        match self {
            StatusResponse::Running => false,
            _ => true,
        }
    }
}

/// Parameters of `cancel`.
#[derive(Debug, Clone, PartialEq)]
pub struct CancelParams {
    /// The sidecar's name for the task.
    pub task_id: String,
}

/// What a value of [`CancelParams`] is.
#[verifier::ext_equal]
pub struct CancelParamsModel {
    pub task_id: Seq<char>,
}

impl Wire for CancelParams {
    type Model = CancelParamsModel;

    open spec fn model(&self) -> CancelParamsModel {
        CancelParamsModel {
            task_id: self.task_id.model(),
        }
    }

    open spec fn tree(m: CancelParamsModel) -> JsonView {
        let o = Map::<Seq<char>, JsonView>::empty();
        let o = o.insert("task_id"@, String::tree(m.task_id));
        JsonView::Object(o)
    }

    open spec fn read(t: JsonView, at: Seq<char>, form: Form) -> Result<CancelParamsModel, Fault> {
        let t = wire::unlisted(t, seq!["task_id"@], 1, form);
        let task_id = wire::read_required::<String>(t, "task_id"@, form);
        if !(t is Object) {
            Err(Fault::Invalid(at))
        } else if task_id is Err {
            Err(task_id->Err_0)
        } else {
            Ok(CancelParamsModel {
                task_id: task_id->Ok_0,
            })
        }
    }

    open spec fn lossless(m: CancelParamsModel) -> bool {
        &&& String::lossless(m.task_id)
    }

    open spec fn fits(m: CancelParamsModel, depth: nat) -> bool {
        &&& depth > 0
        &&& String::fits(m.task_id, (depth - 1) as nat)
    }

    fn to_json(&self) -> (r: Json) {
        let mut o = JsonObject::new();
        o.set("task_id", self.task_id.to_json());
        o.finish()
    }

    fn from_json(j: &Json, at: &str, form: Form) -> (r: Result<CancelParams, DecodeError>) {
        let names = ["task_id"];
        let listed = wire::unlist(j, &names, 1, form);
        let j = match &listed {
            Some(o) => o,
            None => j,
        };
        proof {
            assert(wire::strs(names@) =~= seq!["task_id"@]);
        }
        if !j.is_object() {
            return Err(DecodeError::Invalid(at.to_owned()));
        }
        let task_id = match wire::required::<String>(j, "task_id", form) {
            Ok(x) => x,
            Err(e) => return Err(e),
        };
        Ok(CancelParams { task_id })
    }

    proof fn law_reads_what_it_writes(m: CancelParamsModel, at: Seq<char>, form: Form) {
        reveal_strlit("task_id");
        assert("task_id"@.len() == 7);
        String::law_reads_what_it_writes(m.task_id, "task_id"@, form);
        let t = CancelParams::tree(m);
        assert(t.field("task_id"@) == Some(String::tree(m.task_id)));
    }

    proof fn law_fits(m: CancelParamsModel, depth: nat) {
        let inner = (depth - 1) as nat;
        let o = Map::<Seq<char>, JsonView>::empty();
        String::law_fits(m.task_id, inner);
        let v = String::tree(m.task_id);
        json::lemma_insert_within(o, "task_id"@, v, inner);
        let o = o.insert("task_id"@, v);
    }
}

/// Answer to `cancel`.
#[derive(Debug, Clone, PartialEq)]
pub struct CancelResponse {
    /// Whether the task was given up.
    pub cancelled: bool,
}

/// What a value of [`CancelResponse`] is.
#[verifier::ext_equal]
pub struct CancelResponseModel {
    pub cancelled: bool,
}

impl Wire for CancelResponse {
    type Model = CancelResponseModel;

    open spec fn model(&self) -> CancelResponseModel {
        CancelResponseModel {
            cancelled: self.cancelled.model(),
        }
    }

    open spec fn tree(m: CancelResponseModel) -> JsonView {
        let o = Map::<Seq<char>, JsonView>::empty();
        let o = o.insert("cancelled"@, bool::tree(m.cancelled));
        JsonView::Object(o)
    }

    open spec fn read(t: JsonView, at: Seq<char>, form: Form) -> Result<CancelResponseModel, Fault> {
        let t = wire::unlisted(t, seq!["cancelled"@], 1, form);
        let cancelled = wire::read_required::<bool>(t, "cancelled"@, form);
        if !(t is Object) {
            Err(Fault::Invalid(at))
        } else if cancelled is Err {
            Err(cancelled->Err_0)
        } else {
            Ok(CancelResponseModel {
                cancelled: cancelled->Ok_0,
            })
        }
    }

    open spec fn lossless(m: CancelResponseModel) -> bool {
        &&& bool::lossless(m.cancelled)
    }

    open spec fn fits(m: CancelResponseModel, depth: nat) -> bool {
        &&& depth > 0
        &&& bool::fits(m.cancelled, (depth - 1) as nat)
    }

    fn to_json(&self) -> (r: Json) {
        let mut o = JsonObject::new();
        o.set("cancelled", self.cancelled.to_json());
        o.finish()
    }

    fn from_json(j: &Json, at: &str, form: Form) -> (r: Result<CancelResponse, DecodeError>) {
        let names = ["cancelled"];
        let listed = wire::unlist(j, &names, 1, form);
        let j = match &listed {
            Some(o) => o,
            None => j,
        };
        proof {
            assert(wire::strs(names@) =~= seq!["cancelled"@]);
        }
        if !j.is_object() {
            return Err(DecodeError::Invalid(at.to_owned()));
        }
        let cancelled = match wire::required::<bool>(j, "cancelled", form) {
            Ok(x) => x,
            Err(e) => return Err(e),
        };
        Ok(CancelResponse { cancelled })
    }

    proof fn law_reads_what_it_writes(m: CancelResponseModel, at: Seq<char>, form: Form) {
        reveal_strlit("cancelled");
        assert("cancelled"@.len() == 9);
        bool::law_reads_what_it_writes(m.cancelled, "cancelled"@, form);
        let t = CancelResponse::tree(m);
        assert(t.field("cancelled"@) == Some(bool::tree(m.cancelled)));
    }

    proof fn law_fits(m: CancelResponseModel, depth: nat) {
        let inner = (depth - 1) as nat;
        let o = Map::<Seq<char>, JsonView>::empty();
        bool::law_fits(m.cancelled, inner);
        let v = bool::tree(m.cancelled);
        json::lemma_insert_within(o, "cancelled"@, v, inner);
        let o = o.insert("cancelled"@, v);
    }
}

/// How a unit is.
#[derive(Debug, Clone, Copy, PartialEq, Eq, Hash, Structural)]
pub enum HealthStatus {
    /// Well.
    Healthy,
    /// Working, with trouble.
    Degraded,
    /// Not working.
    Unhealthy,
}

impl HealthStatus {
    /// The name on the wire.
    pub open spec fn wire_name(self) -> Seq<char> {
        match self {
            HealthStatus::Healthy => "ok"@,
            HealthStatus::Degraded => "degraded"@,
            HealthStatus::Unhealthy => "unhealthy"@,
        }
    }

    /// The name on the wire.
    pub fn as_str(&self) -> (r: &'static str)
        ensures
            r@ == self.wire_name(),
    {
        match self {
            HealthStatus::Healthy => "ok",
            HealthStatus::Degraded => "degraded",
            HealthStatus::Unhealthy => "unhealthy",
        }
    }

    /// The value that a name stands for.
    pub open spec fn of_name(s: Seq<char>) -> Option<HealthStatus> {
        if s == "ok"@ {
            Some(HealthStatus::Healthy)
        } else if s == "degraded"@ {
            Some(HealthStatus::Degraded)
        } else if s == "unhealthy"@ {
            Some(HealthStatus::Unhealthy)
        } else {
            None
        }
    }

    /// Reads a name.
    pub fn parse(s: &str) -> (r: Option<HealthStatus>)
        ensures
            r == HealthStatus::of_name(s@),
    {
        if text::same(s, "ok") {
            Some(HealthStatus::Healthy)
        } else if text::same(s, "degraded") {
            Some(HealthStatus::Degraded)
        } else if text::same(s, "unhealthy") {
            Some(HealthStatus::Unhealthy)
        } else {
            None
        }
    }
}

impl Wire for HealthStatus {
    type Model = HealthStatus;

    open spec fn model(&self) -> HealthStatus {
        *self
    }

    open spec fn tree(m: HealthStatus) -> JsonView {
        JsonView::Text(m.wire_name())
    }

    open spec fn read(t: JsonView, at: Seq<char>, form: Form) -> Result<HealthStatus, Fault> {
        match wire::name_in(t, form) {
            Some(s) => match HealthStatus::of_name(s) {
                Some(v) => Ok(v),
                None => Err(Fault::Invalid(at)),
            },
            None => Err(Fault::Invalid(at)),
        }
    }

    open spec fn lossless(m: HealthStatus) -> bool {
        true
    }

    open spec fn fits(m: HealthStatus, depth: nat) -> bool {
        true
    }

    fn to_json(&self) -> (r: Json) {
        Json::text(self.as_str())
    }

    fn from_json(j: &Json, at: &str, form: Form) -> (r: Result<HealthStatus, DecodeError>) {
        match wire::name_of(j, form) {
            Some(s) => match HealthStatus::parse(s) {
                Some(v) => Ok(v),
                None => Err(DecodeError::Invalid(at.to_owned())),
            },
            None => Err(DecodeError::Invalid(at.to_owned())),
        }
    }

    proof fn law_reads_what_it_writes(m: HealthStatus, at: Seq<char>, form: Form) {
        reveal_strlit("ok");
        reveal_strlit("degraded");
        reveal_strlit("unhealthy");
        assert("ok"@.len() == 2);
        assert("degraded"@.len() == 8);
        assert("unhealthy"@.len() == 9);
    }

    proof fn law_fits(m: HealthStatus, depth: nat) {
    }
}

/// Answer to `health`.
#[derive(Debug, Clone, PartialEq)]
pub struct HealthResponse {
    /// How the sidecar is.
    pub status: HealthStatus,
    /// Its version.
    pub version: Option<String>,
    /// What troubles it.
    pub error: Option<String>,
    /// Anything else it tells.
    pub metadata: Option<Json>,
}

/// What a value of [`HealthResponse`] is.
#[verifier::ext_equal]
pub struct HealthResponseModel {
    pub status: HealthStatus,
    pub version: Option<Seq<char>>,
    pub error: Option<Seq<char>>,
    pub metadata: Option<JsonView>,
}

impl Wire for HealthResponse {
    type Model = HealthResponseModel;

    open spec fn model(&self) -> HealthResponseModel {
        HealthResponseModel {
            status: self.status.model(),
            version: wire::optional_model(self.version),
            error: wire::optional_model(self.error),
            metadata: wire::optional_model(self.metadata),
        }
    }

    open spec fn tree(m: HealthResponseModel) -> JsonView {
        let o = Map::<Seq<char>, JsonView>::empty();
        let o = o.insert("status"@, HealthStatus::tree(m.status));
        let o = wire::with_optional::<String>(o, "version"@, m.version);
        let o = wire::with_optional::<String>(o, "error"@, m.error);
        let o = wire::with_optional::<Json>(o, "metadata"@, m.metadata);
        JsonView::Object(o)
    }

    open spec fn read(t: JsonView, at: Seq<char>, form: Form) -> Result<HealthResponseModel, Fault> {
        let t = wire::unlisted(t, seq!["status"@, "version"@, "error"@, "metadata"@], 1, form);
        let status = wire::read_required::<HealthStatus>(t, "status"@, form);
        let version = wire::read_optional::<String>(t, "version"@, form);
        let error = wire::read_optional::<String>(t, "error"@, form);
        let metadata = wire::read_optional::<Json>(t, "metadata"@, form);
        if !(t is Object) {
            Err(Fault::Invalid(at))
        } else if status is Err {
            Err(status->Err_0)
        } else if version is Err {
            Err(version->Err_0)
        } else if error is Err {
            Err(error->Err_0)
        } else if metadata is Err {
            Err(metadata->Err_0)
        } else {
            Ok(HealthResponseModel {
                status: status->Ok_0,
                version: version->Ok_0,
                error: error->Ok_0,
                metadata: metadata->Ok_0,
            })
        }
    }

    open spec fn lossless(m: HealthResponseModel) -> bool {
        &&& HealthStatus::lossless(m.status)
        &&& wire::optional_lossless::<String>(m.version)
        &&& wire::optional_lossless::<String>(m.error)
        &&& wire::optional_lossless::<Json>(m.metadata)
    }

    open spec fn fits(m: HealthResponseModel, depth: nat) -> bool {
        &&& depth > 0
        &&& HealthStatus::fits(m.status, (depth - 1) as nat)
        &&& wire::optional_fits::<String>(m.version, (depth - 1) as nat)
        &&& wire::optional_fits::<String>(m.error, (depth - 1) as nat)
        &&& wire::optional_fits::<Json>(m.metadata, (depth - 1) as nat)
    }

    fn to_json(&self) -> (r: Json) {
        let mut o = JsonObject::new();
        o.set("status", self.status.to_json());
        wire::set_optional(&mut o, "version", &self.version);
        wire::set_optional(&mut o, "error", &self.error);
        wire::set_optional(&mut o, "metadata", &self.metadata);
        o.finish()
    }

    fn from_json(j: &Json, at: &str, form: Form) -> (r: Result<HealthResponse, DecodeError>) {
        let names = ["status", "version", "error", "metadata"];
        let listed = wire::unlist(j, &names, 1, form);
        let j = match &listed {
            Some(o) => o,
            None => j,
        };
        proof {
            assert(wire::strs(names@) =~= seq!["status"@, "version"@, "error"@, "metadata"@]);
        }
        if !j.is_object() {
            return Err(DecodeError::Invalid(at.to_owned()));
        }
        let status = match wire::required::<HealthStatus>(j, "status", form) {
            Ok(x) => x,
            Err(e) => return Err(e),
        };
        let version = match wire::optional::<String>(j, "version", form) {
            Ok(x) => x,
            Err(e) => return Err(e),
        };
        let error = match wire::optional::<String>(j, "error", form) {
            Ok(x) => x,
            Err(e) => return Err(e),
        };
        let metadata = match wire::optional::<Json>(j, "metadata", form) {
            Ok(x) => x,
            Err(e) => return Err(e),
        };
        Ok(HealthResponse { status, version, error, metadata })
    }

    proof fn law_reads_what_it_writes(m: HealthResponseModel, at: Seq<char>, form: Form) {
        reveal_strlit("status");
        reveal_strlit("version");
        reveal_strlit("error");
        reveal_strlit("metadata");
        assert("status"@.len() == 6);
        assert("version"@.len() == 7);
        assert("error"@.len() == 5);
        assert("metadata"@.len() == 8);
        HealthStatus::law_reads_what_it_writes(m.status, "status"@, form);
        wire::lemma_optional_reads_back::<String>(m.version, "version"@, form);
        wire::lemma_optional_reads_back::<String>(m.error, "error"@, form);
        wire::lemma_optional_reads_back::<Json>(m.metadata, "metadata"@, form);
        let t = HealthResponse::tree(m);
        assert(t.field("status"@) == Some(HealthStatus::tree(m.status)));
        assert(t.field("version"@) == wire::optional_tree::<String>(m.version));
        assert(t.field("error"@) == wire::optional_tree::<String>(m.error));
        assert(t.field("metadata"@) == wire::optional_tree::<Json>(m.metadata));
    }

    proof fn law_fits(m: HealthResponseModel, depth: nat) {
        let inner = (depth - 1) as nat;
        let o = Map::<Seq<char>, JsonView>::empty();
        HealthStatus::law_fits(m.status, inner);
        let v = HealthStatus::tree(m.status);
        json::lemma_insert_within(o, "status"@, v, inner);
        let o = o.insert("status"@, v);
        wire::lemma_optional_within::<String>(o, "version"@, m.version, inner);
        let o = wire::with_optional::<String>(o, "version"@, m.version);
        wire::lemma_optional_within::<String>(o, "error"@, m.error, inner);
        let o = wire::with_optional::<String>(o, "error"@, m.error);
        wire::lemma_optional_within::<Json>(o, "metadata"@, m.metadata, inner);
        let o = wire::with_optional::<Json>(o, "metadata"@, m.metadata);
    }
}

} // verus!
