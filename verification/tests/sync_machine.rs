use pcgd_sync::grouping::group_households;
use pcgd_sync::household::{classify_row, Household, SurveyContext};
use pcgd_sync::location::LocationCodes;
use pcgd_sync::row::Cell;
use pcgd_sync::sync::{HouseholdSync, SyncAction, SyncEvent, SyncState};

fn member(key: &str, name: &str, head: bool) -> Vec<Cell> {
    let mut row = Vec::new();
    for _ in 0..51 {
        row.push(Cell::other(""));
    }
    row[14] = Cell::text(key);
    row[2] = Cell::text("Trần");
    row[3] = Cell::text(name);
    row[47] = Cell::text(if head { "Chủ hộ" } else { "Con" });
    row
}

fn household_of(key: &str, names: &[&str], with_head: bool) -> Household {
    let ctx = SurveyContext {
        ngay_dieutra: "01/10/2024".to_string(),
        codes: LocationCodes::parse("1_2_3_4").unwrap(),
        pcgd_csrf_token: "tok".to_string(),
    };
    let mut fragments = Vec::new();
    for (i, name) in names.iter().enumerate() {
        let row = member(key, name, with_head && i == 0);
        fragments.push(classify_row(i, &row, &ctx).unwrap());
    }
    group_households(fragments).remove(0)
}

/// A stand-in for the service: one household may exist already, with
/// dependents that are listed a page at a time.
struct Remote {
    exists: bool,
    dependents: Vec<String>,
    page_size: usize,
    reject_resident: Option<usize>,
    lists: usize,
    deletes: Vec<usize>,
    residents: Vec<String>,
}

impl Remote {
    fn fresh() -> Remote {
        Remote {
            exists: false,
            dependents: Vec::new(),
            page_size: 10,
            reject_resident: None,
            lists: 0,
            deletes: Vec::new(),
            residents: Vec::new(),
        }
    }

    fn answer(&mut self, action: &SyncAction) -> String {
        match action {
            SyncAction::SubmitOwner { .. } => {
                if self.exists {
                    "{\"result\":\"error\",\"errors\":{\"so_phieu\":\"Số phiếu T1 đã tồn tại.\"}}"
                        .to_string()
                } else {
                    "{\"result\":\"success\",\"ma_phieu\":\"NEW1\"}".to_string()
                }
            }
            SyncAction::SearchTicket { .. } => {
                "{\"page\":\"1\",\"records\":\"1\",\"rows\":[{\"id\":\"OLD7\",\"cell\":[\"T1\"]}]}"
                    .to_string()
            }
            SyncAction::ListDependents { .. } => {
                self.lists += 1;
                let page: Vec<String> = self
                    .dependents
                    .iter()
                    .take(self.page_size)
                    .map(|id| format!("{{\"id\":\"{}\"}}", id))
                    .collect();
                format!(
                    "{{\"records\":\"{}\",\"rows\":[{}]}}",
                    self.dependents.len(),
                    page.join(",")
                )
            }
            SyncAction::DeleteDependents { ids } => {
                self.deletes.push(ids.len());
                self.dependents.retain(|id| !ids.contains(id));
                "{\"result\":\"success\"}".to_string()
            }
            SyncAction::SubmitResident { index, bundle } => {
                if self.reject_resident == Some(*index) {
                    "{\"result\":\"error\",\"errors\":{\"ho_ten\":\"thiếu\"}}".to_string()
                } else {
                    self.residents.push(bundle.resident.decode().unwrap().ho_ten);
                    "{\"result\":\"success\"}".to_string()
                }
            }
            _ => panic!("no request: {:?}", action),
        }
    }
}

/// Runs a machine against the stand-in until it rests; the operator
/// answers every question with `go_on`.  Returns the states passed, each
/// once per visit.
fn run(machine: &mut HouseholdSync, remote: &mut Remote, go_on: bool) -> Vec<SyncState> {
    let mut states = vec![machine.state()];
    let mut event = SyncEvent::Advance;
    for _ in 0..200 {
        let action = machine.step(event);
        if states.last() != Some(&machine.state()) {
            states.push(machine.state());
        }
        event = match action {
            SyncAction::Advance => SyncEvent::Advance,
            SyncAction::Confirm { .. } => SyncEvent::Operator(go_on),
            SyncAction::Finished => return states,
            SyncAction::Unexpected => panic!("unexpected event"),
            request => SyncEvent::Reply(remote.answer(&request)),
        };
    }
    panic!("the machine did not come to rest");
}

#[test]
fn fresh_household_is_created_and_uploaded() {
    let mut machine = HouseholdSync::new(household_of("T1", &["An", "Bình"], true));
    let mut remote = Remote::fresh();
    let states = run(&mut machine, &mut remote, true);
    assert_eq!(
        states,
        vec![
            SyncState::Pending,
            SyncState::CreateAttempted,
            SyncState::Created,
            SyncState::ResidentUpload,
            SyncState::Done,
        ]
    );
    assert_eq!(remote.lists, 0);
    assert!(remote.deletes.is_empty());
    assert_eq!(remote.residents, vec!["Trần An", "Trần Bình"]);
    assert_eq!(machine.ma_phieu(), "NEW1");
    assert!(machine.owner_uploaded());
    assert_eq!(machine.residents_uploaded(), 2);
    assert!(machine.is_final());
}

#[test]
fn existing_household_is_purged_page_by_page() {
    let mut machine = HouseholdSync::new(household_of("T1", &["An"], true));
    let mut remote = Remote::fresh();
    remote.exists = true;
    remote.dependents = vec!["d1".to_string(), "d2".to_string(), "d3".to_string()];
    remote.page_size = 2;

    let mut states = vec![machine.state()];
    let mut in_loop_lists = 0;
    let mut in_loop_deletes = Vec::new();
    let mut event = SyncEvent::Advance;
    loop {
        let before = machine.state();
        let action = machine.step(event);
        if states.last() != Some(&machine.state()) {
            states.push(machine.state());
        }
        if before == SyncState::Purging {
            match &action {
                SyncAction::ListDependents { ma_phieu } => {
                    assert_eq!(ma_phieu, "OLD7");
                    in_loop_lists += 1;
                }
                SyncAction::DeleteDependents { ids } => in_loop_deletes.push(ids.clone()),
                _ => {}
            }
        }
        if machine.state() == SyncState::Reconciled {
            break;
        }
        event = match action {
            SyncAction::Advance => SyncEvent::Advance,
            SyncAction::Finished | SyncAction::Unexpected | SyncAction::Confirm { .. } => {
                panic!("the purge failed")
            }
            request => SyncEvent::Reply(remote.answer(&request)),
        };
    }
    assert_eq!(in_loop_lists, 2);
    assert_eq!(in_loop_deletes, vec![vec!["d1", "d2"], vec!["d3"]]);
    assert_eq!(remote.deletes, vec![2, 1]);
    assert!(remote.dependents.is_empty());
    assert_eq!(
        states,
        vec![
            SyncState::Pending,
            SyncState::CreateAttempted,
            SyncState::Conflict,
            SyncState::Searching,
            SyncState::Found,
            SyncState::Purging,
            SyncState::Reconciled,
        ]
    );
    assert!(machine.owner_uploaded());

    let rest = run(&mut machine, &mut remote, true);
    assert_eq!(rest, vec![SyncState::Reconciled, SyncState::ResidentUpload, SyncState::Done]);
    assert_eq!(remote.residents, vec!["Trần An"]);
    assert_eq!(machine.ma_phieu(), "OLD7");
}

#[test]
fn existing_household_without_dependents_is_reconciled_at_once() {
    let mut machine = HouseholdSync::new(household_of("T1", &["An"], true));
    let mut remote = Remote::fresh();
    remote.exists = true;
    let states = run(&mut machine, &mut remote, true);
    assert_eq!(remote.lists, 1);
    assert!(remote.deletes.is_empty());
    assert_eq!(states.last(), Some(&SyncState::Done));
    assert!(states.contains(&SyncState::Reconciled));
}

#[test]
fn search_ticket_is_the_owners() {
    let mut machine = HouseholdSync::new(household_of("T1", &["An"], true));
    assert!(matches!(machine.step(SyncEvent::Advance), SyncAction::SubmitOwner { .. }));
    let conflict = "{\"errors\":{\"so_phieu\":\"T1 đã tồn tại.\"}}".to_string();
    assert_eq!(machine.step(SyncEvent::Reply(conflict)), SyncAction::Advance);
    assert_eq!(machine.state(), SyncState::Conflict);
    assert_eq!(
        machine.step(SyncEvent::Advance),
        SyncAction::SearchTicket { so_phieu: "T1".to_string() }
    );
    assert_eq!(machine.state(), SyncState::Searching);
}

#[test]
fn submitted_owner_is_the_encoded_twin() {
    let household = household_of("T1", &["An"], true);
    let mut owner = household.owner.clone().unwrap();
    let mut machine = HouseholdSync::new(household);
    assert_eq!(machine.step(SyncEvent::Advance), SyncAction::SubmitOwner { owner: owner.build() });
}

#[test]
fn rejected_owner_is_fatal_and_skipped_on_confirmation() {
    let mut machine = HouseholdSync::new(household_of("T1", &["An"], true));
    machine.step(SyncEvent::Advance);
    let reply = "{\"result\":\"error\",\"errors\":{\"dia_chi\":\"thiếu\"}}".to_string();
    assert_eq!(
        machine.step(SyncEvent::Reply(reply.clone())),
        SyncAction::Confirm { reply }
    );
    assert_eq!(machine.state(), SyncState::Fatal);
    assert_eq!(machine.step(SyncEvent::Operator(true)), SyncAction::Finished);
    assert_eq!(machine.state(), SyncState::ContinueBatch);
    assert!(!machine.owner_uploaded());
    assert_eq!(machine.residents_uploaded(), 0);
}

#[test]
fn malformed_reply_is_fatal() {
    let mut machine = HouseholdSync::new(household_of("T1", &["An"], true));
    machine.step(SyncEvent::Advance);
    let reply = "<html>502</html>".to_string();
    assert_eq!(
        machine.step(SyncEvent::Reply(reply.clone())),
        SyncAction::Confirm { reply }
    );
    assert_eq!(machine.step(SyncEvent::Operator(false)), SyncAction::Finished);
    assert_eq!(machine.state(), SyncState::AbortBatch);
    assert_eq!(machine.step(SyncEvent::Advance), SyncAction::Finished);
    assert_eq!(machine.step(SyncEvent::Reply("{}".to_string())), SyncAction::Finished);
    assert_eq!(machine.state(), SyncState::AbortBatch);
}

#[test]
fn search_without_id_is_fatal() {
    let mut machine = HouseholdSync::new(household_of("T1", &["An"], true));
    machine.step(SyncEvent::Advance);
    machine.step(SyncEvent::Reply("{\"errors\":{\"so_phieu\":\"T1 đã tồn tại.\"}}".to_string()));
    machine.step(SyncEvent::Advance);
    let reply = "{\"rows\":[]}".to_string();
    assert_eq!(
        machine.step(SyncEvent::Reply(reply.clone())),
        SyncAction::Confirm { reply }
    );
    assert_eq!(machine.state(), SyncState::Fatal);
}

#[test]
fn unreadable_page_is_fatal() {
    let mut machine = HouseholdSync::new(household_of("T1", &["An"], true));
    machine.step(SyncEvent::Advance);
    machine.step(SyncEvent::Reply("{\"errors\":{\"so_phieu\":\"T1 đã tồn tại.\"}}".to_string()));
    machine.step(SyncEvent::Advance);
    machine.step(SyncEvent::Reply("{\"rows\":[{\"id\":\"OLD7\"}]}".to_string()));
    assert_eq!(machine.state(), SyncState::Found);
    assert_eq!(
        machine.step(SyncEvent::Advance),
        SyncAction::ListDependents { ma_phieu: "OLD7".to_string() }
    );
    let reply = "{\"records\":\"2\",\"rows\":\"none\"}".to_string();
    assert_eq!(
        machine.step(SyncEvent::Reply(reply.clone())),
        SyncAction::Confirm { reply }
    );
    assert_eq!(machine.state(), SyncState::Fatal);
}

#[test]
fn failed_delete_lists_again() {
    let mut machine = HouseholdSync::new(household_of("T1", &["An"], true));
    machine.step(SyncEvent::Advance);
    machine.step(SyncEvent::Reply("{\"errors\":{\"so_phieu\":\"T1 đã tồn tại.\"}}".to_string()));
    machine.step(SyncEvent::Advance);
    machine.step(SyncEvent::Reply("{\"rows\":[{\"id\":\"OLD7\"}]}".to_string()));
    machine.step(SyncEvent::Advance);
    assert_eq!(
        machine.step(SyncEvent::Reply("{\"records\":\"1\",\"rows\":[{\"id\":\"d1\"}]}".to_string())),
        SyncAction::DeleteDependents { ids: vec!["d1".to_string()] }
    );
    assert_eq!(
        machine.step(SyncEvent::Reply("{\"result\":\"error\"}".to_string())),
        SyncAction::ListDependents { ma_phieu: "OLD7".to_string() }
    );
    assert_eq!(machine.state(), SyncState::Purging);
    let reply = "no json".to_string();
    machine.step(SyncEvent::Reply("{\"records\":\"1\",\"rows\":[{\"id\":\"d1\"}]}".to_string()));
    assert_eq!(
        machine.step(SyncEvent::Reply(reply.clone())),
        SyncAction::Confirm { reply }
    );
}

#[test]
fn purge_gives_up_when_the_count_never_drops() {
    let mut machine = HouseholdSync::new(household_of("T1", &["An"], true));
    let mut remote = Remote::fresh();
    remote.exists = true;
    let mut event = SyncEvent::Advance;
    let mut deletes = 0;
    loop {
        let action = machine.step(event);
        event = match action {
            SyncAction::Advance => SyncEvent::Advance,
            SyncAction::ListDependents { .. } => {
                SyncEvent::Reply("{\"records\":\"1\",\"rows\":[]}".to_string())
            }
            SyncAction::DeleteDependents { ids } => {
                assert!(ids.is_empty());
                deletes += 1;
                SyncEvent::Reply("{\"result\":\"success\"}".to_string())
            }
            SyncAction::Confirm { .. } => break,
            request => SyncEvent::Reply(remote.answer(&request)),
        };
    }
    assert_eq!(deletes, 1000);
    assert_eq!(machine.state(), SyncState::Fatal);
}

#[test]
fn rejected_resident_is_skipped_on_confirmation() {
    let mut machine = HouseholdSync::new(household_of("T1", &["An", "Bình", "Chi"], true));
    let mut remote = Remote::fresh();
    remote.reject_resident = Some(1);
    let states = run(&mut machine, &mut remote, true);
    assert_eq!(
        states,
        vec![
            SyncState::Pending,
            SyncState::CreateAttempted,
            SyncState::Created,
            SyncState::ResidentUpload,
            SyncState::Fatal,
            SyncState::ResidentUpload,
            SyncState::Done,
        ]
    );
    assert_eq!(remote.residents, vec!["Trần An", "Trần Chi"]);
    assert_eq!(machine.residents_uploaded(), 2);
    assert_eq!(machine.next_resident(), 3);
}

#[test]
fn rejected_resident_stops_the_batch_on_refusal() {
    let mut machine = HouseholdSync::new(household_of("T1", &["An", "Bình"], true));
    let mut remote = Remote::fresh();
    remote.reject_resident = Some(0);
    let states = run(&mut machine, &mut remote, false);
    assert_eq!(states.last(), Some(&SyncState::AbortBatch));
    assert!(remote.residents.is_empty());
    assert!(machine.owner_uploaded());
    assert_eq!(machine.residents_uploaded(), 0);
}

#[test]
fn last_rejected_resident_ends_the_household() {
    let mut machine = HouseholdSync::new(household_of("T1", &["An"], true));
    let mut remote = Remote::fresh();
    remote.reject_resident = Some(0);
    let states = run(&mut machine, &mut remote, true);
    assert_eq!(states.last(), Some(&SyncState::Done));
    assert_eq!(machine.residents_uploaded(), 0);
}

#[test]
fn residents_carry_the_record_id() {
    let mut machine = HouseholdSync::new(household_of("T1", &["An"], true));
    machine.step(SyncEvent::Advance);
    machine.step(SyncEvent::Reply("{\"result\":\"success\",\"ma_phieu\":\"NEW1\"}".to_string()));
    match machine.step(SyncEvent::Advance) {
        SyncAction::SubmitResident { index, bundle } => {
            assert_eq!(index, 0);
            assert_eq!(bundle, machine.household().residents[0].encoded_for("NEW1"));
            assert_eq!(bundle.resident.ma_phieu, Some("TkVXMQ==".to_string()));
        }
        other => panic!("no resident: {:?}", other),
    }
}

#[test]
fn household_without_owner_sends_nothing() {
    let mut machine = HouseholdSync::new(household_of("T9", &["An", "Bình"], false));
    assert_eq!(machine.step(SyncEvent::Advance), SyncAction::Finished);
    assert_eq!(machine.state(), SyncState::Done);
    assert!(!machine.owner_uploaded());
}

#[test]
fn unexpected_event_changes_nothing() {
    let mut machine = HouseholdSync::new(household_of("T1", &["An"], true));
    let before = machine.clone();
    assert_eq!(machine.step(SyncEvent::Reply("{}".to_string())), SyncAction::Unexpected);
    assert_eq!(machine.step(SyncEvent::Operator(true)), SyncAction::Unexpected);
    assert_eq!(machine, before);
    machine.step(SyncEvent::Advance);
    assert_eq!(machine.step(SyncEvent::Advance), SyncAction::Unexpected);
    assert_eq!(machine.state(), SyncState::CreateAttempted);
}
