use ppargo::staleness::{ProbeStage, Query, StalenessProbe, Timestamp, Verdict};
use std::collections::HashMap;

struct Disk {
    modified: HashMap<String, u128>,
    contents: HashMap<String, String>,
    asked: Vec<String>,
}

impl Disk {
    fn new() -> Disk {
        Disk { modified: HashMap::new(), contents: HashMap::new(), asked: Vec::new() }
    }

    fn file(&mut self, path: &str, at: u128) {
        self.modified.insert(path.to_string(), at);
    }

    fn text(&mut self, path: &str, at: u128, content: &str) {
        self.modified.insert(path.to_string(), at);
        self.contents.insert(path.to_string(), content.to_string());
    }

    fn remove(&mut self, path: &str) {
        self.modified.remove(path);
        self.contents.remove(path);
    }

    fn check(&mut self, source: &str, object: &str, depfile: &str) -> Verdict {
        self.asked.clear();
        let mut probe = StalenessProbe::new(source, object, depfile);
        loop {
            match probe.query() {
                None => return probe.verdict().unwrap(),
                Some(Query::Modified { path }) => {
                    let answer = self.modified.get(&path).map(|n| Timestamp { nanos: *n });
                    self.asked.push(path);
                    probe.answer_modified(answer);
                }
                Some(Query::Content { path }) => {
                    let answer = self.contents.get(&path).cloned();
                    self.asked.push(path);
                    probe.answer_content(answer);
                }
            }
        }
    }
}

fn built_project() -> Disk {
    let mut disk = Disk::new();
    disk.file("include/h.h", 50);
    disk.file("include/other.h", 50);
    for unit in ["a", "b", "c"] {
        disk.file(&format!("src/{}.cpp", unit), 100);
        disk.file(&format!("obj/{}.o", unit), 200);
    }
    disk.text("obj/a.d", 200, "obj/a.o: src/a.cpp \\\n include/h.h\n");
    disk.text("obj/b.d", 200, "obj/b.o: src/b.cpp \\\n include/h.h \\\n include/other.h\n");
    disk.text("obj/c.d", 200, "obj/c.o: src/c.cpp \\\n include/other.h\n");
    disk
}

fn verdicts(disk: &mut Disk) -> Vec<Verdict> {
    ["a", "b", "c"]
        .iter()
        .map(|unit| {
            disk.check(
                &format!("src/{}.cpp", unit),
                &format!("obj/{}.o", unit),
                &format!("obj/{}.d", unit),
            )
        })
        .collect()
}

#[test]
fn timestamps_compare_strictly() {
    let early = Timestamp { nanos: 1 };
    let late = Timestamp { nanos: 2 };
    assert!(late.is_newer_than(&early));
    assert!(!early.is_newer_than(&late));
    assert!(!early.is_newer_than(&early));
}

#[test]
fn missing_object_is_stale_after_one_question() {
    let mut disk = Disk::new();
    disk.file("src/a.cpp", 100);
    assert_eq!(disk.check("src/a.cpp", "obj/a.o", "obj/a.d"), Verdict::Stale);
    assert_eq!(disk.asked, vec!["obj/a.o".to_string()]);
}

#[test]
fn missing_depfile_is_stale() {
    let mut disk = Disk::new();
    disk.file("src/a.cpp", 100);
    disk.file("obj/a.o", 200);
    assert_eq!(disk.check("src/a.cpp", "obj/a.o", "obj/a.d"), Verdict::Stale);
    assert_eq!(disk.asked, vec!["obj/a.o".to_string(), "obj/a.d".to_string()]);
}

#[test]
fn missing_source_fails_the_check() {
    let mut disk = Disk::new();
    disk.file("obj/a.o", 200);
    disk.text("obj/a.d", 200, "obj/a.o: src/a.cpp\n");
    assert_eq!(disk.check("src/a.cpp", "obj/a.o", "obj/a.d"), Verdict::SourceMissing);
}

#[test]
fn newer_source_is_stale_without_reading_the_depfile() {
    let mut disk = built_project();
    disk.file("src/a.cpp", 201);
    assert_eq!(disk.check("src/a.cpp", "obj/a.o", "obj/a.d"), Verdict::Stale);
    assert_eq!(
        disk.asked,
        vec!["obj/a.o".to_string(), "obj/a.d".to_string(), "src/a.cpp".to_string()]
    );
}

#[test]
fn unchanged_project_is_fresh() {
    let mut disk = built_project();
    assert_eq!(verdicts(&mut disk), vec![Verdict::Fresh, Verdict::Fresh, Verdict::Fresh]);
}

#[test]
fn fresh_check_asks_in_order() {
    let mut disk = built_project();
    assert_eq!(disk.check("src/b.cpp", "obj/b.o", "obj/b.d"), Verdict::Fresh);
    assert_eq!(
        disk.asked,
        vec![
            "obj/b.o".to_string(),
            "obj/b.d".to_string(),
            "src/b.cpp".to_string(),
            "obj/b.d".to_string(),
            "src/b.cpp".to_string(),
            "include/h.h".to_string(),
            "include/other.h".to_string(),
        ]
    );
}

#[test]
fn equal_times_are_not_newer() {
    let mut disk = built_project();
    disk.file("src/a.cpp", 200);
    disk.file("include/h.h", 200);
    assert_eq!(disk.check("src/a.cpp", "obj/a.o", "obj/a.d"), Verdict::Fresh);
}

#[test]
fn touched_header_reaches_exactly_its_users() {
    let mut disk = built_project();
    disk.file("include/h.h", 300);
    assert_eq!(verdicts(&mut disk), vec![Verdict::Stale, Verdict::Stale, Verdict::Fresh]);
}

#[test]
fn edited_source_reaches_exactly_its_unit() {
    let mut disk = built_project();
    disk.file("src/a.cpp", 300);
    assert_eq!(verdicts(&mut disk), vec![Verdict::Stale, Verdict::Fresh, Verdict::Fresh]);
}

#[test]
fn deleted_header_forces_nothing() {
    let mut disk = built_project();
    disk.remove("include/h.h");
    assert_eq!(verdicts(&mut disk), vec![Verdict::Fresh, Verdict::Fresh, Verdict::Fresh]);
}

#[test]
fn deleted_header_does_not_hide_a_newer_one() {
    let mut disk = built_project();
    disk.remove("include/h.h");
    disk.file("include/other.h", 300);
    assert_eq!(verdicts(&mut disk), vec![Verdict::Fresh, Verdict::Stale, Verdict::Stale]);
}

#[test]
fn unreadable_depfile_records_nothing() {
    let mut disk = built_project();
    disk.contents.remove("obj/a.d");
    disk.file("include/h.h", 300);
    assert_eq!(disk.check("src/a.cpp", "obj/a.o", "obj/a.d"), Verdict::Fresh);
}

#[test]
fn depfile_without_words_is_fresh() {
    let mut disk = built_project();
    disk.text("obj/a.d", 200, "");
    assert_eq!(disk.check("src/a.cpp", "obj/a.o", "obj/a.d"), Verdict::Fresh);
}

#[test]
fn probe_reports_its_stage_and_verdict() {
    let mut probe = StalenessProbe::new("s.cpp", "s.o", "s.d");
    assert_eq!(probe.stage, ProbeStage::Object);
    assert_eq!(probe.verdict(), None);
    probe.answer_modified(Some(Timestamp { nanos: 10 }));
    assert_eq!(probe.stage, ProbeStage::Depfile);
    probe.answer_modified(Some(Timestamp { nanos: 10 }));
    assert_eq!(probe.stage, ProbeStage::Source);
    probe.answer_modified(Some(Timestamp { nanos: 10 }));
    assert_eq!(probe.stage, ProbeStage::Content);
    probe.answer_content(Some("s.o: s.cpp x.h".to_string()));
    assert_eq!(probe.stage, ProbeStage::Dependency);
    assert_eq!(probe.dependencies, vec!["s.cpp".to_string(), "x.h".to_string()]);
    probe.answer_modified(Some(Timestamp { nanos: 10 }));
    assert_eq!(probe.next, 1);
    assert_eq!(probe.verdict(), None);
    probe.answer_modified(Some(Timestamp { nanos: 11 }));
    assert_eq!(probe.stage, ProbeStage::Done);
    assert_eq!(probe.verdict(), Some(Verdict::Stale));
    assert!(probe.query().is_none());
}
