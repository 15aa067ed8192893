use adjutant::discovery::{collect_refactor_targets, path_less_exec, FileScan};
use adjutant::transformer::TargetLineRange;

fn scan(path: &str, exists: bool, content: Option<&str>, ranges: &[(usize, usize)]) -> FileScan {
    FileScan {
        path: path.to_string(),
        exists,
        content: content.map(|c| c.to_string()),
        ranges: ranges.iter().map(|&(start, end)| TargetLineRange { start, end }).collect(),
    }
}

fn chars(s: &str) -> Vec<char> {
    s.chars().collect()
}

#[test]
fn paths_compare_by_component() {
    assert!(path_less_exec(&chars("src/a/b.rs"), &chars("src/a-b.rs")));
    assert!(!path_less_exec(&chars("src/a-b.rs"), &chars("src/a/b.rs")));
    assert!(path_less_exec(&chars("src/a.rs"), &chars("src/b.rs")));
    assert!(path_less_exec(&chars("src"), &chars("src/a.rs")));
    assert!(!path_less_exec(&chars("src/a.rs"), &chars("src/a.rs")));
}

#[test]
fn collect_keeps_production_files_sorted_and_merged() {
    let scans = vec![
        scan("/w/src/b.rs", true, Some("use x::LogEvent;"), &[(3, 5)]),
        scan("/w/tests/t.rs", true, Some(""), &[(1, 1)]),
        scan("/w/src/log.rs", true, Some("pub struct LogEvent {}"), &[(1, 2)]),
        scan("/w/src/gone.rs", false, None, &[(1, 1)]),
        scan("/w/src/empty.rs", true, Some(""), &[]),
        scan("/w/src/a.rs", true, None, &[(7, 7)]),
        scan("/w/src/b.rs", true, None, &[(3, 5), (9, 9)]),
    ];
    let targets = collect_refactor_targets(&scans, "LogEvent");
    let paths: Vec<&str> = targets.iter().map(|t| t.file_path.as_str()).collect();
    assert_eq!(paths, vec!["/w/src/a.rs", "/w/src/b.rs"]);
    assert_eq!(targets[1].ranges, vec![TargetLineRange { start: 3, end: 5 }, TargetLineRange { start: 9, end: 9 }]);
    assert!(targets[0].lines.is_empty());
}
