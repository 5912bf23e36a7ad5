//! Type checking of a project: what is run, and what the user is told of it.

use vstd::prelude::*;

use crate::text::{join, joined, quote, quoted, signed, signed_text, views};

verus! {

/// What a tool printed and whether it succeeded.
pub struct ToolOutput {
    /// It ended with code zero.
    pub success: bool,
    /// The output.
    pub stdout: String,
    /// The error output.
    pub stderr: String,
}

/// How the run of a tool ended.
pub enum ToolRun {
    /// The task that ran it broke down.
    Lost(String),
    /// It could not be run.
    NotRun(String),
    /// It ran.
    Ran(ToolOutput),
}

/// Output and error output in one text, on lines of their own if there are both.
pub open spec fn combined(stdout: Seq<char>, stderr: Seq<char>) -> Seq<char> {
    if stdout.len() > 0 && stderr.len() > 0 {
        stdout + "\n"@ + stderr
    } else {
        stdout + stderr
    }
}

/// Puts output and error output into one text.
pub fn combine(stdout: &str, stderr: &str) -> (out: String)
    ensures
        out@ == combined(stdout@, stderr@),
{
    if !stdout.is_empty() && !stderr.is_empty() {
        stdout.to_owned().concat("\n").concat(stderr)
    } else {
        stdout.to_owned().concat(stderr)
    }
}

/// The steps of a check.
#[derive(Clone, Copy, PartialEq, Eq, Structural, Debug)]
pub struct CheckPlan {
    /// The route tree is generated first.
    pub routes: bool,
    /// The TypeScript compiler is run.
    pub tsc: bool,
    /// The Python type checker is run.
    pub ty: bool,
}

/// What is checked: Python always, the user interface if there is one.
pub fn check_plan(has_ui: bool) -> (out: CheckPlan)
    ensures
        out == (CheckPlan { routes: has_ui, tsc: has_ui, ty: true }),
{
    CheckPlan { routes: has_ui, tsc: has_ui, ty: true }
}

/// The messages and the errors of a check.
pub struct CheckReport {
    /// What the user is told.
    pub messages: Vec<String>,
    /// What failed.
    pub errors: Vec<String>,
}

/// The messages and the errors of a check as mathematical values.
pub struct ReportData {
    /// What the user is told.
    pub messages: Seq<Seq<char>>,
    /// What failed.
    pub errors: Seq<Seq<char>>,
}

impl CheckReport {
    /// The mathematical value.
    pub open spec fn data(&self) -> ReportData {
        ReportData { messages: views(self.messages@), errors: views(self.errors@) }
    }
}

/// A report with that of one more tool: a line on how it ended, its output if it failed, and the
/// error.
pub open spec fn reported(
    report: ReportData,
    good: Seq<char>,
    bad: Seq<char>,
    error: Seq<char>,
    run: ToolOutput,
) -> ReportData {
    let output = combined(run.stdout@, run.stderr@);
    if run.success {
        ReportData { messages: report.messages.push(good), errors: report.errors }
    } else if output.len() == 0 {
        ReportData {
            messages: report.messages.push(bad),
            errors: report.errors.push(error + ": no output"@),
        }
    } else {
        ReportData {
            messages: report.messages.push(bad).push(output),
            errors: report.errors.push(error + ": "@ + output),
        }
    }
}

/// Adds the report of a tool.
fn report_tool(report: CheckReport, good: &str, bad: &str, error: &str, run: &ToolOutput) -> (out:
    CheckReport)
    ensures
        out.data() == reported(report.data(), good@, bad@, error@, *run),
{
    let ghost start = report.data();
    let mut out = report;
    if run.success {
        out.messages.push(good.to_owned());
        assert(out.data().messages =~= start.messages.push(good@));
        return out;
    }
    out.messages.push(bad.to_owned());
    assert(out.data().messages =~= start.messages.push(bad@));
    let output = combine(&run.stdout, &run.stderr);
    let ghost shown = output@;
    if output.as_str().is_empty() {
        out.errors.push(error.to_owned().concat(": no output"));
        assert(out.data().errors =~= start.errors.push(error@ + ": no output"@));
    } else {
        out.errors.push(error.to_owned().concat(": ").concat(&output));
        out.messages.push(output);
        assert(out.data().errors =~= start.errors.push(error@ + ": "@ + shown));
        assert(out.data().messages =~= start.messages.push(bad@).push(shown));
    }
    out
}

/// The report of the TypeScript compiler.
pub open spec fn tsc_report(report: ReportData, run: ToolOutput) -> ReportData {
    reported(
        report,
        "✅ [tsc] TypeScript compilation succeeded"@,
        "❌ [tsc] TypeScript compilation failed"@,
        "[tsc] TypeScript compilation failed"@,
        run,
    )
}

/// The report of the Python type checker.
pub open spec fn ty_report(report: ReportData, run: ToolOutput) -> ReportData {
    reported(
        report,
        "✅ [ty] Python type check succeeded"@,
        "❌ [ty] Python type check failed"@,
        "[ty] Python type check failed"@,
        run,
    )
}

/// A report that says nothing.
pub open spec fn no_report() -> ReportData {
    ReportData { messages: Seq::empty(), errors: Seq::empty() }
}

/// What a check ends in: the messages, and the error if there is one. Broken tasks count first, that
/// of the compiler before that of the type checker; then the compiler's run, then the type
/// checker's.
pub open spec fn check_result(tsc: Option<ToolRun>, ty: ToolRun) -> (
    Seq<Seq<char>>,
    Option<Seq<char>>,
) {
    match (tsc, ty) {
        (Some(ToolRun::Lost(e)), _) => (Seq::empty(), Some("Failed to join tsc task: "@ + e@)),
        (_, ToolRun::Lost(e)) => (Seq::empty(), Some("Failed to join ty task: "@ + e@)),
        (Some(ToolRun::NotRun(e)), _) => (Seq::empty(), Some("Failed to run tsc: "@ + e@)),
        (Some(ToolRun::Ran(o)), ToolRun::NotRun(e)) => (
            tsc_report(no_report(), o).messages,
            Some("Failed to run ty check: "@ + e@),
        ),
        (None, ToolRun::NotRun(e)) => (Seq::empty(), Some("Failed to run ty check: "@ + e@)),
        (Some(ToolRun::Ran(o)), ToolRun::Ran(p)) => settled(
            ty_report(tsc_report(no_report(), o), p),
        ),
        (None, ToolRun::Ran(p)) => settled(ty_report(no_report(), p)),
    }
}

/// The messages of a report, and its errors on lines of their own if there are any.
pub open spec fn settled(report: ReportData) -> (Seq<Seq<char>>, Option<Seq<char>>) {
    (
        report.messages,
        if report.errors.len() > 0 {
            Some(joined(report.errors, "\n"@))
        } else {
            None
        },
    )
}

/// The view of a result without a value.
pub open spec fn fault_of(r: Result<(), String>) -> Option<Seq<char>> {
    match r {
        Ok(_) => None,
        Err(e) => Some(e@),
    }
}

/// Ends a check: what the user is told, and whether it succeeded.
pub fn run_check(tsc: Option<ToolRun>, ty: ToolRun) -> (out: (Vec<String>, Result<(), String>))
    ensures
        (views(out.0@), fault_of(out.1)) == check_result(tsc, ty),
{
    if let Some(ToolRun::Lost(e)) = &tsc {
        let none: Vec<String> = Vec::new();
        assert(views(none@) =~= Seq::empty());
        return (none, Err("Failed to join tsc task: ".to_owned().concat(e)));
    }
    if let ToolRun::Lost(e) = &ty {
        let none: Vec<String> = Vec::new();
        assert(views(none@) =~= Seq::empty());
        return (none, Err("Failed to join ty task: ".to_owned().concat(e)));
    }
    if let Some(ToolRun::NotRun(e)) = &tsc {
        let none: Vec<String> = Vec::new();
        assert(views(none@) =~= Seq::empty());
        return (none, Err("Failed to run tsc: ".to_owned().concat(e)));
    }
    let mut report = CheckReport { messages: Vec::new(), errors: Vec::new() };
    assert(report.data().messages =~= Seq::empty());
    assert(report.data().errors =~= Seq::empty());
    if let Some(ToolRun::Ran(o)) = &tsc {
        report = report_tool(
            report,
            "✅ [tsc] TypeScript compilation succeeded",
            "❌ [tsc] TypeScript compilation failed",
            "[tsc] TypeScript compilation failed",
            o,
        );
    }
    match &ty {
        ToolRun::Ran(p) => {
            report = report_tool(
                report,
                "✅ [ty] Python type check succeeded",
                "❌ [ty] Python type check failed",
                "[ty] Python type check failed",
                p,
            );
        },
        ToolRun::NotRun(e) => {
            return (report.messages, Err("Failed to run ty check: ".to_owned().concat(e)));
        },
        ToolRun::Lost(e) => {
            return (report.messages, Err("Failed to join ty task: ".to_owned().concat(e)));
        },
    }
    if report.errors.len() > 0 {
        let e = join(&report.errors, "\n");
        return (report.messages, Err(e));
    }
    (report.messages, Ok(()))
}

/// A check succeeds exactly when every tool ran and succeeded.
pub proof fn check_succeeds_iff_all_do(tsc: Option<ToolRun>, ty: ToolRun)
    ensures
        check_result(tsc, ty).1 is None <==> (tsc matches Some(t) ==> (t matches ToolRun::Ran(o)
            && o.success)) && (ty matches ToolRun::Ran(o) && o.success),
{
}

/// A list of texts as a log shows it.
pub open spec fn listed(v: Seq<Seq<char>>) -> Seq<char> {
    "["@ + joined(Seq::new(v.len(), |i: int| quoted(v[i])), ", "@) + "]"@
}

/// Shows a list of texts.
fn show_list(v: &Vec<String>) -> (out: String)
    ensures
        out@ == listed(views(v@)),
{
    let mut parts: Vec<String> = Vec::new();
    for i in 0..v.len()
        invariant
            parts@.len() == i,
            forall|j: int| 0 <= j < i ==> (#[trigger] parts@[j])@ == quoted(v@[j]@),
    {
        parts.push(quote(&v[i]));
    }
    assert(views(parts@) =~= Seq::new(v@.len(), |i: int| quoted(views(v@)[i])));
    "[".to_owned().concat(&join(&parts, ", ")).concat("]")
}

/// How the generator of the route tree was run.
pub struct RouteRun {
    /// The entrypoint.
    pub entrypoint: String,
    /// The arguments.
    pub args: Vec<String>,
    /// The directory of the application.
    pub app_dir: String,
}

/// How the run of the generator ended.
pub enum RouteOutcome {
    /// It could not be run.
    NotRun(String),
    /// It ended with a code, or by a signal.
    Ended {
        /// The code; none after a signal.
        exit_code: Option<i32>,
        /// The output.
        stdout: String,
        /// The error output.
        stderr: String,
    },
}

/// The code of a failed run as the user is shown it.
pub open spec fn exit_text(code: Option<i32>) -> Seq<char> {
    match code {
        Some(c) => signed(c as int),
        None => "signal"@,
    }
}

/// The message of a failed run.
pub open spec fn route_failure(
    run: RouteRun,
    code: Option<i32>,
    stdout: Seq<char>,
    stderr: Seq<char>,
) -> Seq<char> {
    "Route tree generation failed (exit "@ + exit_text(code) + "):\nentrypoint: "@
        + run.entrypoint@ + "\nargs: "@ + listed(views(run.args@)) + "\napp_dir: "@ + run.app_dir@
        + "\nstdout:\n"@ + stdout + "\nstderr:\n"@ + stderr
}

/// Judges the run of the route tree's generator: only code zero is a success.
pub fn generate_route_tree(run: &RouteRun, outcome: &RouteOutcome) -> (out: Result<(), String>)
    ensures
        match outcome {
            RouteOutcome::NotRun(err) => fault_of(out) == Some(
                "Failed to run route tree generation: "@ + err@,
            ),
            RouteOutcome::Ended { exit_code, stdout, stderr } => fault_of(out) == (if *exit_code
                == Some(0i32) {
                None
            } else {
                Some(route_failure(*run, *exit_code, stdout@, stderr@))
            }),
        },
{
    match outcome {
        RouteOutcome::NotRun(err) => Err(
            "Failed to run route tree generation: ".to_owned().concat(err),
        ),
        RouteOutcome::Ended { exit_code, stdout, stderr } => {
            let code = match exit_code {
                Some(c) => {
                    if *c == 0 {
                        return Ok(());
                    }
                    signed_text(*c)
                },
                None => "signal".to_owned(),
            };
            Err(
                "Route tree generation failed (exit ".to_owned().concat(&code).concat(
                    "):\nentrypoint: ",
                ).concat(&run.entrypoint).concat("\nargs: ").concat(&show_list(&run.args)).concat(
                    "\napp_dir: ",
                ).concat(&run.app_dir).concat("\nstdout:\n").concat(stdout).concat(
                    "\nstderr:\n",
                ).concat(stderr),
            )
        },
    }
}

/// What a tool wrote is shown whole, its output before its errors, each on lines of its own.
pub proof fn output_is_shown_whole(stdout: Seq<char>, stderr: Seq<char>)
    ensures
        stderr.len() == 0 ==> combined(stdout, stderr) == stdout,
        stdout.len() == 0 ==> combined(stdout, stderr) == stderr,
        stdout.len() > 0 && stderr.len() > 0 ==> combined(stdout, stderr) == stdout + seq!['\n']
            + stderr,
{
    reveal_strlit("\n");
    assert("\n"@ =~= seq!['\n']);
    assert(stdout + Seq::<char>::empty() =~= stdout);
    if stderr.len() == 0 {
        assert(stderr =~= Seq::empty());
    }
    if stdout.len() == 0 {
        assert(stdout + stderr =~= stderr);
    }
}

/// A tool that succeeds adds its line and no error. One that fails adds its line, its output if
/// there is any, and an error that shows the output.
pub proof fn tools_are_reported(
    report: ReportData,
    good: Seq<char>,
    bad: Seq<char>,
    error: Seq<char>,
    run: ToolOutput,
)
    ensures
        run.success ==> reported(report, good, bad, error, run).messages == report.messages.push(good)
            && reported(report, good, bad, error, run).errors == report.errors,
        !run.success && run.stdout@.len() == 0 && run.stderr@.len() == 0 ==> reported(
            report,
            good,
            bad,
            error,
            run,
        ).messages == report.messages.push(bad) && reported(report, good, bad, error, run).errors
            == report.errors.push(error + ": no output"@),
        !run.success && (run.stdout@.len() > 0 || run.stderr@.len() > 0) ==> reported(
            report,
            good,
            bad,
            error,
            run,
        ).messages == report.messages.push(bad).push(combined(run.stdout@, run.stderr@)) && reported(
            report,
            good,
            bad,
            error,
            run,
        ).errors == report.errors.push(error + ": "@ + combined(run.stdout@, run.stderr@)),
{
}

/// The outcome of both tools is shown, that of the TypeScript compiler first, and the errors are
/// joined line by line.
pub proof fn both_tools_are_shown(o: ToolOutput, p: ToolOutput)
    ensures
        check_result(None, ToolRun::Ran(p)).0[0] == (if p.success {
            "✅ [ty] Python type check succeeded"@
        } else {
            "❌ [ty] Python type check failed"@
        }),
        check_result(Some(ToolRun::Ran(o)), ToolRun::Ran(p)).0[0] == (if o.success {
            "✅ [tsc] TypeScript compilation succeeded"@
        } else {
            "❌ [tsc] TypeScript compilation failed"@
        }),
        check_result(Some(ToolRun::Ran(o)), ToolRun::Ran(p)).0.contains(
            if p.success {
                "✅ [ty] Python type check succeeded"@
            } else {
                "❌ [ty] Python type check failed"@
            },
        ),
        !p.success && combined(p.stdout@, p.stderr@).len() > 0 ==> check_result(
            None,
            ToolRun::Ran(p),
        ).1 == Some(
            joined(
                seq!["[ty] Python type check failed"@ + ": "@ + combined(p.stdout@, p.stderr@)],
                "\n"@,
            ),
        ),
        !o.success && combined(o.stdout@, o.stderr@).len() > 0 && p.success ==> check_result(
            Some(ToolRun::Ran(o)),
            ToolRun::Ran(p),
        ).1 == Some(
            joined(
                seq![
                    "[tsc] TypeScript compilation failed"@ + ": "@ + combined(o.stdout@, o.stderr@),
                ],
                "\n"@,
            ),
        ),
{
    let first = tsc_report(no_report(), o);
    let both = check_result(Some(ToolRun::Ran(o)), ToolRun::Ran(p)).0;
    assert(both[first.messages.len() as int] == (if p.success {
        "✅ [ty] Python type check succeeded"@
    } else {
        "❌ [ty] Python type check failed"@
    }));
    assert(Seq::<Seq<char>>::empty().push(
        "[ty] Python type check failed"@ + ": "@ + combined(p.stdout@, p.stderr@),
    ) =~= seq!["[ty] Python type check failed"@ + ": "@ + combined(p.stdout@, p.stderr@)]);
    assert(Seq::<Seq<char>>::empty().push(
        "[tsc] TypeScript compilation failed"@ + ": "@ + combined(o.stdout@, o.stderr@),
    ) =~= seq!["[tsc] TypeScript compilation failed"@ + ": "@ + combined(o.stdout@, o.stderr@)]);
}

/// A tool that could not be run ends the check with the reason.
pub proof fn tools_that_do_not_run_are_told(tsc: Option<ToolRun>, ty: ToolRun, e: String, o: ToolOutput)
    ensures
        check_result(Some(ToolRun::Lost(e)), ty).1 == Some("Failed to join tsc task: "@ + e@),
        !(tsc matches Some(ToolRun::Lost(_))) ==> check_result(tsc, ToolRun::Lost(e)).1 == Some(
            "Failed to join ty task: "@ + e@,
        ),
        !(ty is Lost) ==> check_result(Some(ToolRun::NotRun(e)), ty).1 == Some(
            "Failed to run tsc: "@ + e@,
        ),
        check_result(None, ToolRun::NotRun(e)).1 == Some("Failed to run ty check: "@ + e@),
        check_result(Some(ToolRun::Ran(o)), ToolRun::NotRun(e)).1 == Some(
            "Failed to run ty check: "@ + e@,
        ),
{
}

/// A failed generation of routes is told with the exit code, what was run and what it wrote.
pub proof fn route_failures_are_told(
    run: RouteRun,
    code: i32,
    stdout: Seq<char>,
    stderr: Seq<char>,
    v: Seq<Seq<char>>,
)
    ensures
        exit_text(Some(code)) == signed(code as int),
        exit_text(None) == "signal"@,
        route_failure(run, Some(code), stdout, stderr) == "Route tree generation failed (exit "@
            + signed(code as int) + "):\nentrypoint: "@ + run.entrypoint@ + "\nargs: "@ + listed(
            views(run.args@),
        ) + "\napp_dir: "@ + run.app_dir@ + "\nstdout:\n"@ + stdout + "\nstderr:\n"@ + stderr,
        listed(v) == "["@ + joined(Seq::new(v.len(), |i: int| quoted(v[i])), ", "@) + "]"@,
{
}

/// What is shown of a report is what it holds.
pub proof fn reports_are_shown(r: CheckReport, e: String)
    ensures
        r.data().messages == views(r.messages@),
        r.data().errors == views(r.errors@),
        fault_of(Ok(())) is None,
        fault_of(Err(e)) == Some(e@),
        no_report().messages.len() == 0,
        no_report().errors.len() == 0,
{
}

} // verus!
