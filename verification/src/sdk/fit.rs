//! Keeping responses within the size of a message: output that is too long is
//! cut, and marked as cut.

use crate::json;
use crate::protocol::jsonrpc::{Response, ResponseModel};
use crate::protocol::sidecar::{SubmitResponse, SubmitResponseModel};
use crate::sdk::codec::MAX_MESSAGE_SIZE;
use crate::text;
use crate::wire::{self, Form, Wire};
use vstd::prelude::*;
use vstd::string::*;

verus! {

/// Whether a response is no longer than a message may be.
pub open spec fn fits(m: ResponseModel) -> bool {
    json::compact_bytes(Response::tree(m)).len() <= MAX_MESSAGE_SIZE
}

/// The output that a response carries: what a finished task wrote.
pub open spec fn output_of(m: ResponseModel) -> Option<(Seq<char>, Seq<char>)> {
    match m.result {
        Some(t) => match SubmitResponse::read(t, "result"@, Form::Plain) {
            Ok(SubmitResponseModel::Completed { stdout, stderr, truncated }) => Some(
                (stdout, stderr),
            ),
            _ => None,
        },
        None => None,
    }
}

/// The first characters of a text, at most so many.
pub open spec fn cut(s: Seq<char>, keep: nat) -> Seq<char> {
    if s.len() <= keep {
        s
    } else {
        s.take(keep as int)
    }
}

/// The response with either output cut, and marked as cut.
pub open spec fn shortened(
    m: ResponseModel,
    output: (Seq<char>, Seq<char>),
    keep: nat,
) -> ResponseModel {
    ResponseModel {
        result: Some(
            SubmitResponse::tree(
                SubmitResponseModel::Completed {
                    stdout: cut(output.0, keep),
                    stderr: cut(output.1, keep),
                    truncated: true,
                },
            ),
        ),
        ..m
    }
}

/// The response with its outputs cut in half until it fits, or until nothing is
/// left of them.
pub open spec fn halved(
    m: ResponseModel,
    output: (Seq<char>, Seq<char>),
    keep: nat,
) -> ResponseModel
    decreases keep,
{
    let s = shortened(m, output, keep);
    if keep == 0 || fits(s) {
        s
    } else {
        halved(m, output, keep / 2)
    }
}

/// The length of the longer output.
pub open spec fn longest(output: (Seq<char>, Seq<char>)) -> nat {
    if output.0.len() < output.1.len() {
        output.1.len()
    } else {
        output.0.len()
    }
}

/// What is sent for a response: the response itself where it fits or carries no
/// output, and what fits of its output otherwise.
pub open spec fn sent(m: ResponseModel) -> ResponseModel {
    match output_of(m) {
        Some(output) => if fits(m) || longest(output) == 0 {
            m
        } else {
            halved(m, output, longest(output) / 2)
        },
        None => m,
    }
}

/// Cuts a text.
fn cut_text(chars: &Vec<char>, keep: usize) -> (r: String)
    ensures
        r@ == cut(chars@, keep as nat),
{
    if chars.len() <= keep {
        let r = text::text_of(chars, 0, chars.len());
        proof {
            assert(chars@.subrange(0, chars@.len() as int) =~= chars@);
        }
        r
    } else {
        text::text_of(chars, 0, keep)
    }
}

/// Writes a response as the bytes of a message. Output that does not fit is cut
/// and marked as cut.
pub fn response_bytes(response: Response) -> (r: Vec<u8>)
    ensures
        r@ == json::compact_bytes(Response::tree(sent(response.model()))),
{
    let ghost m = response.model();
    let whole = wire::encode_bytes(&response);
    if whole.len() <= MAX_MESSAGE_SIZE {
        return whole;
    }
    let read = match &response.result {
        Some(t) => SubmitResponse::from_json(t, "result", Form::Plain),
        None => return whole,
    };
    let (out, err) = match read {
        Ok(SubmitResponse::Completed { stdout, stderr, truncated: _ }) => (
            text::chars_of(stdout.as_str()),
            text::chars_of(stderr.as_str()),
        ),
        _ => return whole,
    };
    let longest: usize = if out.len() < err.len() {
        err.len()
    } else {
        out.len()
    };
    if longest == 0 {
        return whole;
    }
    let ghost output = (out@, err@);
    let mut keep: usize = longest / 2;
    let mut part = response;
    proof {
        assert(output_of(m) == Some(output));
    }
    loop
        invariant
            m == response.model(),
            output == (out@, err@),
            part.model() == (ResponseModel { result: part.model().result, ..m }),
            sent(m) == halved(m, output, keep as nat),
        decreases keep,
    {
        let answer = SubmitResponse::Completed {
            stdout: cut_text(&out, keep),
            stderr: cut_text(&err, keep),
            truncated: true,
        };
        part.result = Some(answer.to_json());
        proof {
            assert(part.model() == shortened(m, output, keep as nat));
        }
        let bytes = wire::encode_bytes(&part);
        if keep == 0 || bytes.len() <= MAX_MESSAGE_SIZE {
            proof {
                assert(halved(m, output, keep as nat) == shortened(m, output, keep as nat));
            }
            return bytes;
        }
        keep = keep / 2;
    }
}

/// What halving leads to.
proof fn lemma_halved(m: ResponseModel, output: (Seq<char>, Seq<char>), keep: nat)
    ensures
        exists|k: nat|
            k <= keep && halved(m, output, keep) == #[trigger] shortened(m, output, k) && (k == 0
                || fits(shortened(m, output, k))),
    decreases keep,
{
    let s = shortened(m, output, keep);
    if !(keep == 0 || fits(s)) {
        lemma_halved(m, output, keep / 2);
        let k = choose|k: nat|
            k <= keep / 2 && halved(m, output, keep / 2) == #[trigger] shortened(m, output, k) && (k
                == 0 || fits(shortened(m, output, k)));
        assert(k <= keep);
    }
}

/// Whether what is sent for a response carries the first `keep` characters of
/// either output, marked as cut.
pub open spec fn sends_cut(m: ResponseModel, output: (Seq<char>, Seq<char>), keep: nat) -> bool {
    &&& sent(m) == shortened(m, output, keep)
    &&& SubmitResponse::read(sent(m).result->0, "result"@, Form::Plain) == Ok::<
        SubmitResponseModel,
        wire::Fault,
    >(
        SubmitResponseModel::Completed {
            stdout: cut(output.0, keep),
            stderr: cut(output.1, keep),
            truncated: true,
        },
    )
}

/// What is sent answers the same request. Where a response that carries output
/// was too long, what is sent is marked as cut, its outputs are how the whole
/// ones begin, and it fits unless nothing is left of them.
pub proof fn law_long_output_is_cut_and_marked(m: ResponseModel)
    ensures
        sent(m).id == m.id,
        sent(m).jsonrpc == m.jsonrpc,
        sent(m).error == m.error,
        fits(m) ==> sent(m) == m,
        !fits(m) && output_of(m) is Some && longest(output_of(m)->0) > 0 ==> exists|k: nat|
            k < longest(output_of(m)->0) && #[trigger] sends_cut(m, output_of(m)->0, k) && (k == 0
                || fits(sent(m))),
{
    if !fits(m) && output_of(m) is Some && longest(output_of(m)->0) > 0 {
        let output = output_of(m)->0;
        lemma_halved(m, output, longest(output) / 2);
        let k = choose|k: nat|
            k <= longest(output) / 2 && halved(m, output, longest(output) / 2)
                == #[trigger] shortened(m, output, k) && (k == 0 || fits(
                shortened(m, output, k),
            ));
        assert(sent(m) == shortened(m, output, k));
        let answer = SubmitResponseModel::Completed {
            stdout: cut(output.0, k),
            stderr: cut(output.1, k),
            truncated: true,
        };
        SubmitResponse::law_reads_what_it_writes(answer, "result"@, Form::Plain);
        assert(sends_cut(m, output, k));
    }
}

/// A number halved so many times.
pub open spec fn halved_times(n: nat, times: nat) -> nat
    decreases times,
{
    if times == 0 {
        n
    } else {
        halved_times(n, (times - 1) as nat) / 2
    }
}

/// Halving once more, and halving the half.
proof fn lemma_halved_times(n: nat, times: nat)
    ensures
        halved_times(n / 2, times) == halved_times(n, times + 1),
    decreases times,
{
    if times > 0 {
        lemma_halved_times(n, (times - 1) as nat);
    } else {
        reveal_with_fuel(halved_times, 2);
    }
}

/// Whether what is left after so many halvings is the first that can be sent.
pub open spec fn first_to_fit(
    m: ResponseModel,
    output: (Seq<char>, Seq<char>),
    n: nat,
    times: nat,
) -> bool {
    &&& halved_times(n, times) == 0 || fits(shortened(m, output, halved_times(n, times)))
    &&& forall|j: nat|
        #![trigger halved_times(n, j)]
        j < times ==> halved_times(n, j) > 0 && !fits(shortened(m, output, halved_times(n, j)))
}

/// Halving leads to the first half that can be sent.
proof fn lemma_first_to_fit(m: ResponseModel, output: (Seq<char>, Seq<char>), keep: nat)
    ensures
        exists|times: nat| #[trigger]
            first_to_fit(m, output, keep, times) && halved(m, output, keep) == shortened(
                m,
                output,
                halved_times(keep, times),
            ),
    decreases keep,
{
    if keep == 0 || fits(shortened(m, output, keep)) {
        assert(halved_times(keep, 0) == keep);
        assert(first_to_fit(m, output, keep, 0));
    } else {
        lemma_first_to_fit(m, output, keep / 2);
        let t = choose|t: nat| #[trigger]
            first_to_fit(m, output, keep / 2, t) && halved(m, output, keep / 2) == shortened(
                m,
                output,
                halved_times(keep / 2, t),
            );
        lemma_halved_times(keep, t);
        assert forall|j: nat| #![trigger halved_times(keep, j)] j < t + 1 implies halved_times(
            keep,
            j,
        ) > 0 && !fits(shortened(m, output, halved_times(keep, j))) by {
            if j > 0 {
                lemma_halved_times(keep, (j - 1) as nat);
                let before = halved_times(keep / 2, (j - 1) as nat);
                assert(before > 0 && !fits(shortened(m, output, before)));
            } else {
                assert(halved_times(keep, 0) == keep);
            }
        }
        assert(first_to_fit(m, output, keep, t + 1));
    }
}

/// No more is cut than halving asks for: of a response that is too long, the half,
/// the quarter and so on of its outputs is tried, and the first that fits is sent.
/// A response that fits, or that carries no output, is sent as it is.
pub proof fn law_no_more_is_cut_than_has_to_be(m: ResponseModel)
    ensures
        ({
            let output = output_of(m)->0;
            let n = longest(output);
            let whole = json::compact_bytes(Response::tree(m)).len() <= 4 * 1024 * 1024 || output_of(
                m,
            ) is None || n == 0;
            &&& n >= output.0.len() && n >= output.1.len()
            &&& n == output.0.len() || n == output.1.len()
            &&& whole ==> sent(m) == m
            &&& !whole ==> exists|times: nat| #[trigger]
                first_to_fit(m, output, n / 2, times) && sent(m) == shortened(
                    m,
                    output,
                    halved_times(n / 2, times),
                )
        }),
{
    if output_of(m) is Some {
        lemma_first_to_fit(m, output_of(m)->0, longest(output_of(m)->0) / 2);
    }
}

/// What is left of a cut output is how it begins, as much of it as is kept.
pub proof fn law_cut_keeps_the_beginning(s: Seq<char>, keep: nat)
    ensures
        s.len() <= keep ==> cut(s, keep) == s,
        s.len() > keep ==> cut(s, keep).len() == keep && cut(s, keep) == s.take(keep as int),
{
}

/// The output of a response is that of the finished task that it reports.
pub proof fn law_output_is_that_of_a_finished_task(
    m: ResponseModel,
    out: Seq<char>,
    err: Seq<char>,
    truncated: bool,
)
    requires
        m.result == Some(
            SubmitResponse::tree(
                SubmitResponseModel::Completed { stdout: out, stderr: err, truncated },
            ),
        ),
    ensures
        output_of(m) == Some((out, err)),
{
    SubmitResponse::law_reads_what_it_writes(
        SubmitResponseModel::Completed { stdout: out, stderr: err, truncated },
        "result"@,
        Form::Plain,
    );
}

} // verus!
