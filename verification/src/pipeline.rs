use vstd::prelude::*;
use vstd::string::*;
use crate::command::CommandLine;
use crate::errors::CaptureError;
use crate::strutil::{lemma_views_of_push, tokenize, tokens_of, views_of};

verus! {

/// What one successful capture task hands to the aggregation step: the
/// display it captured and the filtered image it produced.
#[derive(Debug)]
pub struct CaptureResult {
    pub display_name: String,
    pub image_path: String,
}

impl Clone for CaptureResult {
    fn clone(&self) -> (r: Self)
        ensures
            r == *self,
    {
        CaptureResult {
            display_name: self.display_name.clone(),
            image_path: self.image_path.clone(),
        }
    }
}

/// Which screen locker binary the run drives.
#[derive(Clone, Copy, Debug, PartialEq, Eq, Structural)]
pub enum LockerVariant {
    I3,
    Sway,
}

/// The locker binary each variant stands for.
pub open spec fn locker_binary_spec(v: LockerVariant) -> Seq<char> {
    match v {
        LockerVariant::I3 => "i3lock"@,
        LockerVariant::Sway => "swaylock"@,
    }
}

/// Join the per-display outcomes after the parallel fan-out. All tasks must
/// have succeeded for the run to go on; the first failure (in task order)
/// aborts the whole run.
pub fn collect_results(outcomes: &Vec<Result<CaptureResult, CaptureError>>) -> (r: Result<
    Vec<CaptureResult>,
    CaptureError,
>)
    ensures
        r is Ok <==> (forall|i: int| 0 <= i < outcomes@.len() ==> outcomes@[i] is Ok),
        r matches Ok(rs) ==> rs@.len() == outcomes@.len() && (forall|i: int|
            0 <= i < outcomes@.len() ==> outcomes@[i] == Ok::<CaptureResult, CaptureError>(
                rs@[i],
            )),
        r matches Err(e) ==> exists|i: int|
            0 <= i < outcomes@.len() && outcomes@[i] == Err::<CaptureResult, CaptureError>(e) && (
            forall|j: int| 0 <= j < i ==> outcomes@[j] is Ok),
{
    let n = outcomes.len();
    let mut rs: Vec<CaptureResult> = Vec::new();
    let mut i: usize = 0;
    while i < n
        invariant
            i <= n,
            n == outcomes@.len(),
            rs@.len() == i,
            forall|j: int| 0 <= j < i ==> outcomes@[j] == Ok::<CaptureResult, CaptureError>(
                rs@[j],
            ),
        decreases n - i,
    {
        match &outcomes[i] {
            Ok(cr) => {
                rs.push(cr.clone());
            },
            Err(e) => {
                proof {
                    assert(forall|j: int| 0 <= j < i ==> outcomes@[j] is Ok);
                }
                return Err(e.clone());
            },
        }
        i = i + 1;
    }
    Ok(rs)
}

/// Judge the screenshot step of one capture task: a non-zero exit of the
/// screenshot tool is fatal and carries the tool's stderr verbatim.
pub fn screenshot_outcome(exit_ok: bool, stderr: String) -> (r: Result<(), CaptureError>)
    ensures
        r is Ok <==> exit_ok,
        !exit_ok ==> r == Err::<(), CaptureError>(CaptureError::ToolFailed(stderr)),
{
    if exit_ok {
        Ok(())
    } else {
        Err(CaptureError::ToolFailed(stderr))
    }
}

/// Judge the filter step of one capture task: a non-zero exit of the filter
/// command is fatal and carries its stderr verbatim.
pub fn modifier_outcome(exit_ok: bool, stderr: String) -> (r: Result<(), CaptureError>)
    ensures
        r is Ok <==> exit_ok,
        !exit_ok ==> r == Err::<(), CaptureError>(CaptureError::ModifierFailed(stderr)),
{
    if exit_ok {
        Ok(())
    } else {
        Err(CaptureError::ModifierFailed(stderr))
    }
}

/// Judge the final locker invocation: a non-zero exit is the single
/// top-level fatal error and carries the locker's stderr verbatim.
pub fn locker_outcome(exit_ok: bool, stderr: String) -> (r: Result<(), crate::errors::LockerError>)
    ensures
        r is Ok <==> exit_ok,
        !exit_ok ==> r == Err::<(), crate::errors::LockerError>(
            crate::errors::LockerError::Failed(stderr),
        ),
{
    if exit_ok {
        Ok(())
    } else {
        Err(crate::errors::LockerError::Failed(stderr))
    }
}

/// One `-i name:path` image flag, as the locker expects it.
pub open spec fn image_pair_spec(r: CaptureResult) -> Seq<char> {
    r.display_name@ + seq![':'] + r.image_path@
}

/// The image arguments for a run: for every capture result, in order, the
/// `-i` flag and its `name:path` value.
pub open spec fn image_args_spec(rs: Seq<CaptureResult>) -> Seq<Seq<char>>
    decreases rs.len(),
{
    if rs.len() == 0 {
        Seq::empty()
    } else {
        seq!["-i"@, image_pair_spec(rs[0])] + image_args_spec(rs.drop_first())
    }
}

/// Every capture result contributes exactly one `-i name:path` pair.
pub proof fn lemma_image_args_len(rs: Seq<CaptureResult>)
    ensures
        image_args_spec(rs).len() == 2 * rs.len(),
    decreases rs.len(),
{
    if rs.len() > 0 {
        lemma_image_args_len(rs.drop_first());
    }
}

proof fn lemma_image_args_snoc(rs: Seq<CaptureResult>, r: CaptureResult)
    ensures
        image_args_spec(rs.push(r)) == image_args_spec(rs) + seq!["-i"@, image_pair_spec(r)],
    decreases rs.len(),
{
    if rs.len() == 0 {
        assert(rs.push(r).drop_first() =~= Seq::<CaptureResult>::empty());
        assert(rs.push(r)[0] == r);
        assert(image_args_spec(rs.push(r)) == seq!["-i"@, image_pair_spec(r)] + image_args_spec(
            Seq::<CaptureResult>::empty(),
        ));
        assert(image_args_spec(Seq::<CaptureResult>::empty()) == Seq::<Seq<char>>::empty());
        assert(image_args_spec(rs) == Seq::<Seq<char>>::empty());
        assert(seq!["-i"@, image_pair_spec(r)] + Seq::<Seq<char>>::empty() =~= Seq::<
            Seq<char>,
        >::empty() + seq!["-i"@, image_pair_spec(r)]);
    } else {
        let rest = rs.drop_first();
        lemma_image_args_snoc(rest, r);
        assert(rs.push(r)[0] == rs[0]);
        assert(rs.push(r).drop_first() =~= rest.push(r));
        assert(image_args_spec(rs.push(r)) == seq!["-i"@, image_pair_spec(rs[0])]
            + image_args_spec(rest.push(r)));
        assert(image_args_spec(rs) == seq!["-i"@, image_pair_spec(rs[0])] + image_args_spec(rest));
        assert((seq!["-i"@, image_pair_spec(rs[0])] + image_args_spec(rest)) + seq![
            "-i"@,
            image_pair_spec(r),
        ] =~= seq!["-i"@, image_pair_spec(rs[0])] + (image_args_spec(rest) + seq![
            "-i"@,
            image_pair_spec(r),
        ]));
    }
}

fn image_pair(r: &CaptureResult) -> (s: String)
    ensures
        s@ == image_pair_spec(*r),
{
    let mut s = r.display_name.clone();
    s.append(":");
    s.append(r.image_path.as_str());
    proof {
        reveal_strlit(":");
        assert(":"@ =~= seq![':']);
        assert(s@ =~= image_pair_spec(*r));
    }
    s
}

/// Plan the final locker invocation: the variant's binary, then the
/// whitespace-tokenized `lock_args` configuration value, then one
/// `-i name:path` pair per captured display, count exact.
pub fn locker_command(results: &Vec<CaptureResult>, lock_args: &str, variant: LockerVariant) -> (c:
    CommandLine)
    ensures
        c.program@ == locker_binary_spec(variant),
        c.args_view() == tokens_of(lock_args@) + image_args_spec(results@),
{
    let mut args = tokenize(lock_args);
    let n = results.len();
    let mut i: usize = 0;
    while i < n
        invariant
            i <= n,
            n == results@.len(),
            views_of(args@) == tokens_of(lock_args@) + image_args_spec(results@.take(i as int)),
        decreases n - i,
    {
        let ghost args0 = args@;
        let ghost done = results@.take(i as int);
        args.push(String::from_str("-i"));
        let pair = image_pair(&results[i]);
        let ghost pair_snap = pair;
        let ghost flag_snap = args@[args0.len() as int];
        args.push(pair);
        proof {
            lemma_views_of_push(args0, flag_snap);
            lemma_views_of_push(args0.push(flag_snap), pair_snap);
            lemma_image_args_snoc(done, results@[i as int]);
            assert(results@.take(i as int + 1) =~= done.push(results@[i as int]));
            assert(views_of(args@) =~= tokens_of(lock_args@) + image_args_spec(
                results@.take(i as int + 1),
            ));
        }
        i = i + 1;
    }
    proof {
        assert(results@.take(n as int) =~= results@);
    }
    let program = match variant {
        LockerVariant::I3 => String::from_str("i3lock"),
        LockerVariant::Sway => String::from_str("swaylock"),
    };
    CommandLine { program, args }
}

/// The capture results behind a sequence of all-successful outcomes.
pub open spec fn succeeded_results(outcomes: Seq<Result<CaptureResult, CaptureError>>) -> Seq<
    CaptureResult,
> {
    outcomes.map_values(|o: Result<CaptureResult, CaptureError>| o->Ok_0)
}

/// The decision at the join point of the whole run: go on to the locker only
/// when every capture task succeeded, and then with exactly the planned
/// command; otherwise surface the first capture failure and never build a
/// locker invocation at all.
pub fn plan_locker_invocation(
    outcomes: &Vec<Result<CaptureResult, CaptureError>>,
    lock_args: &str,
    variant: LockerVariant,
) -> (r: Result<CommandLine, CaptureError>)
    ensures
        r is Ok <==> (forall|i: int| 0 <= i < outcomes@.len() ==> outcomes@[i] is Ok),
        r matches Ok(c) ==> c.program@ == locker_binary_spec(variant) && c.args_view()
            == tokens_of(lock_args@) + image_args_spec(succeeded_results(outcomes@))
            && c.args_view().len() == tokens_of(lock_args@).len() + 2 * outcomes@.len(),
        r matches Err(e) ==> exists|i: int|
            0 <= i < outcomes@.len() && outcomes@[i] == Err::<CaptureResult, CaptureError>(e) && (
            forall|j: int| 0 <= j < i ==> outcomes@[j] is Ok),
{
    let results = match collect_results(outcomes) {
        Ok(rs) => rs,
        Err(e) => {
            return Err(e);
        },
    };
    proof {
        assert(succeeded_results(outcomes@) =~= results@);
        lemma_image_args_len(results@);
    }
    let c = locker_command(&results, lock_args, variant);
    Ok(c)
}

} // verus!
