use todo_domain::contracts::{
    validate_id, validate_notes, validate_title, Attachment, AttachmentKind,
    ContractValidationError, RecurrenceCalendar, RecurrenceFrequency, RecurrenceRule,
    SyncOperationKind, SyncRequest, Subtask, Todo, TodoPatch, TodoStatus, TodoSyncOperation,
    Weekday,
};

fn todo() -> Todo {
    Todo {
        id: "todo-1".to_owned(),
        title: "write the contract".to_owned(),
        status: TodoStatus::Open,
        created_at: "2026-07-16T00:00:00Z".to_owned(),
        completed_at: None,
        archived_at: None,
        due_date: None,
        reminders: Vec::new(),
        notes: None,
        start_date: None,
        starts_at: None,
        ends_at: None,
        estimated_minutes: None,
        recurrence: None,
        list_id: None,
        important: None,
        urgent: None,
            tag_ids: Vec::new(),
        subtasks: Vec::new(),
        attachments: Vec::new(),
        depends_on: Vec::new(),
        check_ins: Vec::new(),
    }
}

#[test]
fn delete_operation_rejects_a_patch() {
    let operation = TodoSyncOperation {
        operation_id: "operation-1".to_owned(),
        todo_id: "todo-1".to_owned(),
        kind: SyncOperationKind::Delete,
        occurred_at: "2026-07-16T00:00:00Z".to_owned(),
        patch: Some(TodoPatch::empty()),
    };

    assert_eq!(
        operation.validate(),
        Err(ContractValidationError::DeleteHasPatch)
    );
}

#[test]
fn validation_rejects_the_combinations_that_cannot_be_stored() {
    let mut empty_title = todo();
    empty_title.title = "   ".to_owned();
    assert_eq!(
        empty_title.validate(),
        Err(ContractValidationError::InvalidTitle)
    );

    let mut end_without_start = todo();
    end_without_start.ends_at = Some("2026-07-20T10:00:00Z".to_owned());
    assert_eq!(
        end_without_start.validate(),
        Err(ContractValidationError::InvalidTimeRange)
    );

    let mut zero_estimate = todo();
    zero_estimate.estimated_minutes = Some(0);
    assert_eq!(
        zero_estimate.validate(),
        Err(ContractValidationError::InvalidEstimate)
    );

    let mut duplicate_tags = todo();
    duplicate_tags.tag_ids = vec!["tag-1".to_owned(), "tag-1".to_owned()];
    assert_eq!(
        duplicate_tags.validate(),
        Err(ContractValidationError::DuplicateEntry)
    );

    let mut self_dependency = todo();
    self_dependency.depends_on = vec!["todo-1".to_owned()];
    assert_eq!(
        self_dependency.validate(),
        Err(ContractValidationError::SelfDependency)
    );

    let mut blank_attachment = todo();
    blank_attachment.attachments = vec![Attachment {
        id: "file-1".to_owned(),
        kind: AttachmentKind::File,
        url: "  ".to_owned(),
        name: None,
    }];
    assert_eq!(
        blank_attachment.validate(),
        Err(ContractValidationError::InvalidAttachment)
    );
}

#[test]
fn recurrence_rejects_impossible_rules() {
    let base = RecurrenceRule {
        frequency: RecurrenceFrequency::Monthly,
        interval: 1,
        weekdays: Vec::new(),
        month_day: None,
        on_last_day: false,
        calendar: RecurrenceCalendar::Gregorian,
        until: None,
        count: None,
    };

    let mut no_interval = base.clone();
    no_interval.interval = 0;
    assert_eq!(
        no_interval.validate(),
        Err(ContractValidationError::InvalidRecurrence)
    );

    let mut both_month_positions = base.clone();
    both_month_positions.month_day = Some(15);
    both_month_positions.on_last_day = true;
    assert_eq!(
        both_month_positions.validate(),
        Err(ContractValidationError::InvalidRecurrence)
    );

    let mut impossible_day = base.clone();
    impossible_day.month_day = Some(32);
    assert_eq!(
        impossible_day.validate(),
        Err(ContractValidationError::InvalidRecurrence)
    );

    let mut repeated_weekday = base.clone();
    repeated_weekday.frequency = RecurrenceFrequency::Weekly;
    repeated_weekday.weekdays = vec![Weekday::Monday, Weekday::Monday];
    assert_eq!(
        repeated_weekday.validate(),
        Err(ContractValidationError::DuplicateEntry)
    );

    let mut last_day = base;
    last_day.on_last_day = true;
    last_day
        .validate()
        .expect("the last day of a month is valid");
}

#[test]
fn recurrence_refuses_an_end_date_and_a_count_at_once() {
    // RFC 5545 3.3.10 forbids UNTIL and COUNT together, and the .ics export
    // can write only one of the two (数据与同步/08 keeps the end date), so a
    // rule carrying both would repeat one length in the app and another in an
    // exported calendar. The single stopping condition is enforced here, at
    // the one chokepoint every stored or synced rule passes through — either
    // one alone, or neither, stays valid.
    let base = RecurrenceRule {
        frequency: RecurrenceFrequency::Daily,
        interval: 1,
        weekdays: Vec::new(),
        month_day: None,
        on_last_day: false,
        calendar: RecurrenceCalendar::Gregorian,
        until: None,
        count: None,
    };

    let mut both = base.clone();
    both.until = Some("2026-12-31".to_owned());
    both.count = Some(10);
    assert_eq!(
        both.validate(),
        Err(ContractValidationError::InvalidRecurrence)
    );

    let mut until_only = base.clone();
    until_only.until = Some("2026-12-31".to_owned());
    until_only
        .validate()
        .expect("an end date on its own is a valid stop");

    let mut count_only = base.clone();
    count_only.count = Some(10);
    count_only
        .validate()
        .expect("a count on its own is a valid stop");

    base.validate()
        .expect("a rule with no stopping condition repeats for ever, which is valid");
}

#[test]
fn a_patch_carrying_the_new_fields_is_validated() {
    let patch = TodoPatch {
        subtasks: Some(vec![Subtask {
            id: "step-1".to_owned(),
            title: "  ".to_owned(),
            done: false,
        }]),
        ..TodoPatch::empty()
    };

    let operation = TodoSyncOperation {
        operation_id: "operation-1".to_owned(),
        todo_id: "todo-1".to_owned(),
        kind: SyncOperationKind::Upsert,
        occurred_at: "2026-07-16T00:00:00Z".to_owned(),
        patch: Some(patch),
    };

    assert_eq!(
        operation.validate(),
        Err(ContractValidationError::InvalidTitle)
    );
}

#[test]
fn a_valid_todo_passes() {
    assert_eq!(todo().validate(), Ok(()));
}

#[test]
fn the_single_fields_are_checked_on_their_own() {
    assert_eq!(validate_id("  "), Err(ContractValidationError::InvalidId));
    assert_eq!(validate_id("todo-1"), Ok(()));
    assert_eq!(validate_title(""), Err(ContractValidationError::InvalidTitle));
    assert_eq!(validate_title(&"长".repeat(500)), Ok(()));
    assert_eq!(validate_title(&"长".repeat(501)), Err(ContractValidationError::InvalidTitle));
    assert_eq!(validate_notes(&"x".repeat(20_000)), Ok(()));
    assert_eq!(validate_notes(&"x".repeat(20_001)), Err(ContractValidationError::InvalidNotes));
}

#[test]
fn an_upsert_needs_a_patch_and_a_request_has_a_ceiling() {
    let upsert = TodoSyncOperation {
        operation_id: "operation-1".to_owned(),
        todo_id: "todo-1".to_owned(),
        kind: SyncOperationKind::Upsert,
        occurred_at: "2026-07-16T00:00:00Z".to_owned(),
        patch: None,
    };
    assert_eq!(upsert.validate(), Err(ContractValidationError::MissingUpsertPatch));

    let delete = TodoSyncOperation { kind: SyncOperationKind::Delete, ..upsert };
    assert_eq!(delete.validate(), Ok(()));
    let too_many = SyncRequest {
        device_id: "desktop-1".to_owned(),
        cursor: 0,
        operations: vec![delete.clone(); 101],
    };
    assert_eq!(too_many.validate(), Err(ContractValidationError::TooManyOperations));
    let enough = SyncRequest { operations: vec![delete; 100], ..too_many };
    assert_eq!(enough.validate(), Ok(()));
}

#[test]
fn every_refusal_reads_as_its_sentence() {
    assert_eq!(
        ContractValidationError::DeleteHasPatch.message(),
        "delete operations must not include a patch"
    );
    assert_eq!(
        ContractValidationError::TooManyOperations.message(),
        "sync requests support at most 100 operations"
    );
}

#[test]
fn a_long_interval_is_refused() {
    let rule = RecurrenceRule {
        frequency: RecurrenceFrequency::Daily,
        interval: 1_000,
        weekdays: Vec::new(),
        month_day: None,
        on_last_day: false,
        calendar: RecurrenceCalendar::Gregorian,
        until: None,
        count: None,
    };
    assert_eq!(rule.validate(), Err(ContractValidationError::InvalidRecurrence));
}
