use hanyeongkey::input_language::{
    desired_ime_open, desired_primary, ensure_after_change, ensure_after_query, ensure_target,
    find_installed_layout, language_from_korean_ime_open, language_query, layout_wait,
    primary_language, verify_language, EnsureInputLanguageResult, EnsureStep, InputLanguage,
    InputLanguageError, LanguageQuery, LayoutWait, PRIMARY_LANGUAGE_ENGLISH,
    PRIMARY_LANGUAGE_KOREAN,
};

struct FakeBackend {
    current: InputLanguage,
    set_calls: usize,
    set_error: Option<InputLanguageError>,
}

fn ensure_input_language(
    backend: &mut FakeBackend,
    desired: InputLanguage,
) -> Result<EnsureInputLanguageResult, InputLanguageError> {
    match ensure_after_query(Ok(backend.current), desired) {
        EnsureStep::Finish(result) => result,
        EnsureStep::Change => {
            backend.set_calls += 1;
            ensure_after_change(backend.set_error.map_or(Ok(()), Err))
        }
    }
}

#[test]
fn does_not_change_an_already_matching_language() {
    let mut backend = FakeBackend {
        current: InputLanguage::Korean,
        set_calls: 0,
        set_error: None,
    };
    assert_eq!(
        ensure_input_language(&mut backend, InputLanguage::Korean),
        Ok(EnsureInputLanguageResult::AlreadySet)
    );
    assert_eq!(backend.set_calls, 0);
}

#[test]
fn target_change_prevents_backend_modification() {
    let mut backend = FakeBackend {
        current: InputLanguage::English,
        set_calls: 0,
        set_error: Some(InputLanguageError::TargetChanged),
    };
    assert_eq!(
        ensure_input_language(&mut backend, InputLanguage::Korean),
        Err(InputLanguageError::TargetChanged)
    );
    assert_eq!(backend.set_calls, 1);
}

#[test]
fn korean_ime_open_state_maps_to_hangul_mode() {
    assert_eq!(language_from_korean_ime_open(true), InputLanguage::Korean);
    assert_eq!(language_from_korean_ime_open(false), InputLanguage::English);
    assert!(desired_ime_open(InputLanguage::Korean));
    assert!(!desired_ime_open(InputLanguage::English));
}

#[test]
fn a_successful_change_is_reported_as_changed() {
    let mut backend = FakeBackend {
        current: InputLanguage::Korean,
        set_calls: 0,
        set_error: None,
    };
    assert_eq!(
        ensure_input_language(&mut backend, InputLanguage::English),
        Ok(EnsureInputLanguageResult::Changed)
    );
    assert_eq!(backend.set_calls, 1);
    assert_eq!(
        ensure_after_query(Err(InputLanguageError::QueryFailed), InputLanguage::English),
        EnsureStep::Finish(Err(InputLanguageError::QueryFailed))
    );
}

#[test]
fn layout_handles_are_read_by_their_primary_language() {
    assert_eq!(primary_language(0x0412_0412), PRIMARY_LANGUAGE_KOREAN);
    assert_eq!(primary_language(0x0409_0409), PRIMARY_LANGUAGE_ENGLISH);
    assert_eq!(primary_language(0xF001_0809), PRIMARY_LANGUAGE_ENGLISH);
    assert_eq!(desired_primary(InputLanguage::Korean), PRIMARY_LANGUAGE_KOREAN);
    assert_eq!(
        language_query(PRIMARY_LANGUAGE_KOREAN),
        LanguageQuery::ReadImeOpenStatus
    );
    assert_eq!(
        language_query(PRIMARY_LANGUAGE_ENGLISH),
        LanguageQuery::Answer(Ok(InputLanguage::English))
    );
    assert_eq!(
        language_query(0x11),
        LanguageQuery::Answer(Err(InputLanguageError::QueryFailed))
    );
}

#[test]
fn the_first_installed_layout_of_a_language_is_chosen() {
    let layouts = vec![0x0409_0409usize, 0x0412_0412, 0xE001_0412];
    assert_eq!(
        find_installed_layout(&layouts, 3, PRIMARY_LANGUAGE_KOREAN),
        Some(0x0412_0412)
    );
    assert_eq!(find_installed_layout(&layouts, 1, PRIMARY_LANGUAGE_KOREAN), None);
    assert_eq!(find_installed_layout(&layouts, -1, PRIMARY_LANGUAGE_ENGLISH), None);
    assert_eq!(
        find_installed_layout(&layouts, 9, PRIMARY_LANGUAGE_ENGLISH),
        Some(0x0409_0409)
    );
}

#[test]
fn verification_and_waiting_decisions() {
    assert_eq!(ensure_target(false), Err(InputLanguageError::TargetChanged));
    assert_eq!(ensure_target(true), Ok(()));
    assert_eq!(
        verify_language(Ok(InputLanguage::English), InputLanguage::Korean),
        Err(InputLanguageError::ChangeRejected)
    );
    assert_eq!(verify_language(Ok(InputLanguage::Korean), InputLanguage::Korean), Ok(()));
    assert_eq!(layout_wait(0x12, 0x12, true), LayoutWait::Applied);
    assert_eq!(layout_wait(0x09, 0x12, false), LayoutWait::KeepWaiting);
    assert_eq!(layout_wait(0x09, 0x12, true), LayoutWait::TimedOut);
}
