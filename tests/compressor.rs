use gif_shrink::{
    baseline_args, decimal_string, lossy_args, merge_args, optimize_args, probe_args,
};

fn strs(v: &[&str]) -> Vec<String> {
    v.iter().map(|s| s.to_string()).collect()
}

#[test]
fn decimal_digits() {
    assert_eq!(decimal_string(0), "0");
    assert_eq!(decimal_string(7), "7");
    assert_eq!(decimal_string(240), "240");
    assert_eq!(decimal_string(u64::MAX), u64::MAX.to_string());
}

#[test]
fn probe_asks_for_version() {
    assert_eq!(probe_args(), strs(&["--version"]));
}

#[test]
fn merge_arguments() {
    let frames = strs(&["/t/frame_0.gif", "/t/frame_1.gif"]);
    assert_eq!(
        merge_args("/o.gif", 12, &frames),
        strs(&[
            "--no-warnings",
            "--no-conserve-memory",
            "--no-app-extensions",
            "--no-comments",
            "--no-names",
            "-o",
            "/o.gif",
            "--delay",
            "12",
            "--loopcount=forever",
            "/t/frame_0.gif",
            "/t/frame_1.gif",
        ])
    );
}

#[test]
fn optimize_arguments() {
    assert_eq!(optimize_args("a", "b"), strs(&["-O3", "a", "-o", "b"]));
}

#[test]
fn baseline_arguments() {
    assert_eq!(
        baseline_args("in.gif", "tmp"),
        strs(&[
            "-O3",
            "--no-warnings",
            "--no-conserve-memory",
            "--no-comments",
            "--no-names",
            "--careful",
            "in.gif",
            "-o",
            "tmp",
        ])
    );
}

#[test]
fn lossy_arguments() {
    assert_eq!(
        lossy_args(150, "best", "trial"),
        strs(&[
            "-O3",
            "--no-warnings",
            "--no-conserve-memory",
            "--no-comments",
            "--no-names",
            "--lossy=150",
            "best",
            "-o",
            "trial",
        ])
    );
}
