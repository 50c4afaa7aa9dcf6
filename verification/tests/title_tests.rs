use page_session::title::{title_candidate, update_buffer_title, TitleStep, MAX_TITLE_SUFFIX};

const TAKEN: &str = "0 - Failed to rename buffer";

/// Renames against an editor in which the names `taken` are in use, and
/// records every name that was asked for.
fn rename(title: &str, taken: &[String]) -> (Option<String>, Vec<String>) {
    let mut asked = Vec::new();
    let mut attempt: u64 = 0;
    loop {
        let name = title_candidate(title, attempt);
        asked.push(name.clone());
        let answer = if taken.contains(&name) { Err(TAKEN.to_string()) } else { Ok(()) };
        match update_buffer_title(attempt, &answer) {
            TitleStep::Renamed => return (Some(name), asked),
            TitleStep::Retry(next) => attempt = next,
            TitleStep::GiveUp(_) => return (None, asked),
        }
    }
}

#[test]
fn the_limit_is_ninety_nine() {
    assert_eq!(MAX_TITLE_SUFFIX, 99);
}

#[test]
fn candidates_carry_the_attempt_in_parentheses() {
    assert_eq!(title_candidate("out", 0), "out");
    assert_eq!(title_candidate("out", 1), "out(1)");
    assert_eq!(title_candidate("out", 6), "out(6)");
    assert_eq!(title_candidate("out", 10), "out(10)");
    assert_eq!(title_candidate("out", 99), "out(99)");
    assert_eq!(title_candidate("", 3), "(3)");
    assert_eq!(title_candidate("a b(1)", 2), "a b(1)(2)");
}

#[test]
fn a_free_title_is_taken_as_it_is() {
    let (name, asked) = rename("out", &[]);
    assert_eq!(name, Some("out".to_string()));
    assert_eq!(asked, vec!["out".to_string()]);
}

#[test]
fn the_first_free_suffix_is_used() {
    let taken: Vec<String> = vec!["out", "out(1)", "out(2)", "out(3)", "out(4)", "out(5)"]
        .into_iter()
        .map(String::from)
        .collect();
    let (name, asked) = rename("out", &taken);
    assert_eq!(name, Some("out(6)".to_string()));
    assert_eq!(asked.len(), 7);
    assert_eq!(asked[6], "out(6)");
}

#[test]
fn the_last_suffix_is_still_tried() {
    let mut taken = vec!["out".to_string()];
    for n in 1..99 {
        taken.push(format!("out({})", n));
    }
    let (name, asked) = rename("out", &taken);
    assert_eq!(name, Some("out(99)".to_string()));
    assert_eq!(asked.len(), 100);
}

#[test]
fn exhausted_suffixes_fail_without_a_further_attempt() {
    let mut taken = vec!["out".to_string()];
    for n in 1..=99 {
        taken.push(format!("out({})", n));
    }
    let (name, asked) = rename("out", &taken);
    assert_eq!(name, None);
    assert_eq!(asked.len(), 100);
    assert_eq!(asked[0], "out");
    assert_eq!(asked[99], "out(99)");
    assert!(!asked.contains(&"out(100)".to_string()));
}

#[test]
fn success_ends_the_retry() {
    assert_eq!(update_buffer_title(0, &Ok(())), TitleStep::Renamed);
    assert_eq!(update_buffer_title(57, &Ok(())), TitleStep::Renamed);
    assert_eq!(update_buffer_title(99, &Ok(())), TitleStep::Renamed);
}

#[test]
fn a_taken_name_is_retried_with_the_next_suffix() {
    assert_eq!(update_buffer_title(0, &Err(TAKEN.to_string())), TitleStep::Retry(1));
    assert_eq!(update_buffer_title(5, &Err(TAKEN.to_string())), TitleStep::Retry(6));
    assert_eq!(update_buffer_title(98, &Err(TAKEN.to_string())), TitleStep::Retry(99));
}

#[test]
fn a_taken_name_at_the_last_suffix_gives_up() {
    assert_eq!(
        update_buffer_title(99, &Err(TAKEN.to_string())),
        TitleStep::GiveUp(TAKEN.to_string())
    );
    assert_eq!(
        update_buffer_title(100, &Err(TAKEN.to_string())),
        TitleStep::GiveUp(TAKEN.to_string())
    );
    assert_eq!(
        update_buffer_title(u64::MAX, &Err(TAKEN.to_string())),
        TitleStep::GiveUp(TAKEN.to_string())
    );
}

#[test]
fn another_failure_gives_up_at_once() {
    let failure = "1 - Invalid buffer id".to_string();
    assert_eq!(update_buffer_title(0, &Err(failure.clone())), TitleStep::GiveUp(failure.clone()));
    assert_eq!(update_buffer_title(3, &Err(failure.clone())), TitleStep::GiveUp(failure));
    let near = "0 - Failed to rename buffer.".to_string();
    assert_eq!(update_buffer_title(0, &Err(near.clone())), TitleStep::GiveUp(near));
}

#[test]
fn the_clients_description_of_a_taken_name_is_known() {
    let taken = neovim_lib::CallError::NeovimError(0, "Failed to rename buffer".to_string());
    assert_eq!(update_buffer_title(0, &Err(taken.to_string())), TitleStep::Retry(1));
    let generic = neovim_lib::CallError::GenericError("Failed to rename buffer".to_string());
    assert_eq!(
        update_buffer_title(0, &Err(generic.to_string())),
        TitleStep::GiveUp("Unknown error type: Failed to rename buffer".to_string())
    );
}
