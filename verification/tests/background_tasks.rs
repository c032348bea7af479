use daleth::tasks::{finish_load, install_default, task_start, BackgroundTasks, TaskStart};

#[test]
fn dialog_task_starts_with_the_dialog() {
    assert!(matches!(task_start(&BackgroundTasks::OpenFileDialog, &None), TaskStart::PickFile));
    assert!(matches!(
        task_start(&BackgroundTasks::OpenFileDialog, &Some("a.json".to_string())),
        TaskStart::PickFile
    ));
}

#[test]
fn stored_path_is_loaded() {
    match task_start(&BackgroundTasks::OpenFileNoDialog, &Some("/tmp/p.json".to_string())) {
        TaskStart::Load(p) => assert_eq!(p, "/tmp/p.json"),
        other => panic!("unexpected {:?}", other),
    }
}

#[test]
fn missing_or_empty_path_installs_default() {
    assert!(matches!(task_start(&BackgroundTasks::OpenFileNoDialog, &None), TaskStart::InstallDefault));
    assert!(matches!(
        task_start(&BackgroundTasks::OpenFileNoDialog, &Some(String::new())),
        TaskStart::InstallDefault
    ));
}

#[test]
fn default_replaces_every_voice() {
    let mut voices = vec![1, 2, 3];
    install_default(&mut voices, 0);
    assert_eq!(voices, vec![0]);
}

#[test]
fn picked_file_that_loads_is_remembered() {
    let mut voices = vec![1];
    let mut stored = Some(String::new());
    finish_load(&BackgroundTasks::OpenFileDialog, &mut voices, &mut stored, "x.json".to_string(), Some(vec![7, 8]), 0);
    assert_eq!(voices, vec![7, 8]);
    assert_eq!(stored, Some("x.json".to_string()));
}

#[test]
fn stored_file_that_loads_keeps_the_path() {
    let mut voices = vec![1];
    let mut stored = Some("old.json".to_string());
    finish_load(&BackgroundTasks::OpenFileNoDialog, &mut voices, &mut stored, "old.json".to_string(), Some(vec![]), 0);
    assert_eq!(voices, Vec::<i32>::new());
    assert_eq!(stored, Some("old.json".to_string()));
}

#[test]
fn failed_load_keeps_voices_and_path() {
    let mut voices = vec![4, 5];
    let mut stored = Some("old.json".to_string());
    finish_load(&BackgroundTasks::OpenFileDialog, &mut voices, &mut stored, "bad.json".to_string(), None, 0);
    assert_eq!(voices, vec![4, 5]);
    assert_eq!(stored, Some("old.json".to_string()));
    finish_load(&BackgroundTasks::OpenFileNoDialog, &mut voices, &mut stored, "old.json".to_string(), None, 0);
    assert_eq!(voices, vec![4, 5]);
}

#[test]
fn failed_pick_without_any_path_falls_back_to_default() {
    let mut voices = vec![4, 5];
    let mut stored: Option<String> = None;
    finish_load(&BackgroundTasks::OpenFileDialog, &mut voices, &mut stored, "bad.json".to_string(), None, 9);
    assert_eq!(voices, vec![9]);
    assert_eq!(stored, None);
    let mut voices = vec![4, 5];
    finish_load(&BackgroundTasks::OpenFileNoDialog, &mut voices, &mut stored, String::new(), None, 9);
    assert_eq!(voices, vec![4, 5]);
}
