//! The navigator state machine: loading, ticks, navigation, toggling,
//! path editing, saving and failure handling.
use op_export::format::ux::{
    Account, AccountAttributes, ExportData, ExportDataEntry, Item, ItemDetails, Overview, Vault,
    VaultAttributes,
};
use op_export::model::{clamp_cursor, Command, Input, Key, Message, Model};
use op_export::op::OPError;

fn s(x: &str) -> String {
    x.to_string()
}

fn item(id: &str) -> Item {
    Item {
        uuid: s(id),
        created_at: s("2023-01-01T00:00:00Z"),
        updated_at: s("2023-01-02T00:00:00Z"),
        category_uuid: s("001"),
        overview: Overview { title: s(id), url: None, urls: vec![], tags: vec![] },
        details: ItemDetails { login_fields: vec![] },
    }
}

fn scenario_tree() -> ExportData {
    ExportData {
        accounts: vec![Account {
            attrs: AccountAttributes {
                name: s("account"),
                email: s("user@example.com"),
                uuid: s("A"),
                domain: s("example.1password.com"),
            },
            vaults: vec![Vault {
                attrs: VaultAttributes { uuid: s("V"), name: s("vault"), type_: s("P") },
                items: vec![item("I1"), item("I2")],
            }],
        }],
    }
}

fn loaded_model() -> Model {
    let mut m = Model::new();
    let cmd = m.update(Message::Loaded(scenario_tree()));
    assert!(cmd.is_none());
    m
}

#[test]
fn load_fills_both_lists_and_stops_loading() {
    let m = loaded_model();
    assert_eq!(m.loading_indicator_count, 0);
    assert_eq!(m.flattened_export_data.as_ref().unwrap().len(), 4);
    assert_eq!(m.viewable_entries.len(), 4);
    assert_eq!(m.current_selection, 0);
    assert!(m.error.is_none());
}

#[test]
fn load_failure_records_error_and_stops_loading() {
    let mut m = Model::new();
    let cmd = m.update(Message::LoadFailed(OPError::CLIError(s("signed out"))));
    assert!(cmd.is_none());
    assert_eq!(m.loading_indicator_count, 0);
    assert_eq!(m.error, Some(OPError::CLIError(s("signed out"))));
    assert!(m.export_data.is_none());
}

#[test]
fn tick_reschedules_only_while_loading() {
    let mut m = Model::new();
    assert_eq!(m.loading_indicator_count, 1);
    assert_eq!(m.update(Message::Tick), Some(Command::ScheduleTick));
    assert_eq!(m.loading_indicator_count, 2);
    let mut m2 = loaded_model();
    assert_eq!(m2.update(Message::Tick), None);
    assert_eq!(m2.loading_indicator_count, 0);
}

#[test]
fn loading_indicator_cycles_one_through_five() {
    let mut m = Model::new();
    let mut seen: Vec<usize> = vec![m.loading_indicator_count];
    for _ in 0..6 {
        m.update(Message::Tick);
        seen.push(m.loading_indicator_count);
    }
    assert_eq!(seen, vec![1, 2, 3, 4, 5, 1, 2]);
}

#[test]
fn escape_quits_from_any_state() {
    let mut m = Model::new();
    assert_eq!(m.update(Message::Key(Key::Esc)), Some(Command::Quit));
    let mut m2 = loaded_model();
    assert_eq!(m2.update(Message::Key(Key::Esc)), Some(Command::Quit));
}

#[test]
fn keys_are_ignored_before_load() {
    let mut m = Model::new();
    assert_eq!(m.update(Message::Key(Key::Down)), None);
    assert_eq!(m.update(Message::Key(Key::Char('x'))), None);
    assert_eq!(m.current_selection, 0);
    assert_eq!(m.export_options.output_file, s(""));
}

#[test]
fn down_moves_and_clamps_at_last_visible_index() {
    let mut m = loaded_model();
    for _ in 0..3 {
        assert_eq!(m.update(Message::Key(Key::Down)), None);
    }
    assert_eq!(m.current_selection, 3);
    // scenario: cursor at the last visible index; Down leaves it unchanged
    assert_eq!(m.update(Message::Key(Key::Down)), None);
    assert_eq!(m.current_selection, 3);
}

#[test]
fn up_stops_at_the_top() {
    let mut m = loaded_model();
    m.update(Message::Key(Key::Down));
    m.update(Message::Key(Key::Up));
    assert_eq!(m.current_selection, 0);
    m.update(Message::Key(Key::Up));
    assert_eq!(m.current_selection, 0);
}

#[test]
fn enter_with_empty_path_does_nothing() {
    // scenario: empty path buffer; Enter asks for no save and changes nothing
    let mut m = loaded_model();
    let cmd = m.update(Message::Key(Key::Enter));
    assert_eq!(cmd, None);
    assert_eq!(m.viewable_entries.len(), 4);
    assert_eq!(m.current_selection, 0);
    assert!(m.error.is_none());
    assert_eq!(m.loading_indicator_count, 0);
}

#[test]
fn enter_with_path_requests_a_save() {
    let mut m = loaded_model();
    m.update(Message::Key(Key::Char('o')));
    m.update(Message::Key(Key::Char('u')));
    m.update(Message::Key(Key::Char('t')));
    assert_eq!(m.export_options.output_file, s("out"));
    assert_eq!(m.update(Message::Key(Key::Enter)), Some(Command::Save));
    // the pending path survives the request, so a failed save can be retried
    assert_eq!(m.export_options.output_file, s("out"));
}

#[test]
fn save_failure_is_recorded_and_stays_interactive() {
    let mut m = loaded_model();
    m.record_save_error(s("permission denied"));
    assert_eq!(m.error, Some(OPError::SaveError(s("permission denied"))));
    assert!(m.export_data.is_some());
    assert_eq!(m.viewable_entries.len(), 4);
}

#[test]
fn space_toggles_the_entry_under_the_cursor() {
    let mut m = loaded_model();
    // move onto the vault and toggle it: its items leave the view
    m.update(Message::Key(Key::Down));
    m.update(Message::Key(Key::Char(' ')));
    assert_eq!(m.viewable_entries.len(), 2);
    assert_eq!(m.current_selection, 1);
    match &m.viewable_entries[1] {
        ExportDataEntry::Vault(v) => assert_eq!(v.attrs.uuid, s("V")),
        _ => panic!("the vault entry must stay visible"),
    }
    // toggling it again brings the items back
    m.update(Message::Key(Key::Char(' ')));
    assert_eq!(m.viewable_entries.len(), 4);
}

#[test]
fn toggling_the_account_clamps_the_cursor() {
    let mut m = loaded_model();
    for _ in 0..3 {
        m.update(Message::Key(Key::Down));
    }
    assert_eq!(m.current_selection, 3);
    // exclude the item under the cursor: the view keeps all four entries
    m.update(Message::Key(Key::Char(' ')));
    assert_eq!(m.viewable_entries.len(), 4);
    assert_eq!(m.current_selection, 3);
    // now move up to the account and exclude it: only it stays, cursor clamped
    for _ in 0..3 {
        m.update(Message::Key(Key::Up));
    }
    m.update(Message::Key(Key::Char(' ')));
    assert_eq!(m.viewable_entries.len(), 1);
    assert_eq!(m.current_selection, 0);
}

#[test]
fn path_editing_inserts_at_the_caret() {
    let mut m = loaded_model();
    m.update(Message::Key(Key::Char('a')));
    m.update(Message::Key(Key::Char('b')));
    m.update(Message::Key(Key::Left));
    m.update(Message::Key(Key::Char('c')));
    assert_eq!(m.export_options.output_file, s("acb"));
    assert_eq!(m.export_path_input.pos, 2);
    m.update(Message::Key(Key::Right));
    m.update(Message::Key(Key::Backspace));
    assert_eq!(m.export_options.output_file, s("ac"));
}

#[test]
fn backspace_at_the_start_changes_nothing() {
    let mut m = loaded_model();
    m.update(Message::Key(Key::Char('a')));
    m.update(Message::Key(Key::Left));
    m.update(Message::Key(Key::Backspace));
    assert_eq!(m.export_options.output_file, s("a"));
    assert_eq!(m.export_path_input.pos, 0);
}

#[test]
fn input_buffer_returns_the_typed_characters() {
    let mut input = Input::new();
    input.insert_char('h');
    input.insert_char('i');
    assert_eq!(input.buffer(), s("hi"));
    input.clear();
    assert_eq!(input.buffer(), s(""));
    assert_eq!(input.pos, 0);
}

#[test]
fn clamp_cursor_bounds() {
    assert_eq!(clamp_cursor(0, 0), 0);
    assert_eq!(clamp_cursor(7, 0), 0);
    assert_eq!(clamp_cursor(2, 5), 2);
    assert_eq!(clamp_cursor(5, 5), 4);
    assert_eq!(clamp_cursor(9, 5), 4);
}

#[test]
fn error_variants_carry_their_messages() {
    let errors = vec![
        OPError::CommandError(s("no such file")),
        OPError::DeserializeError(s("expected value")),
        OPError::CLIError(s("signed out")),
        OPError::SaveError(s("permission denied")),
    ];
    assert!(matches!(&errors[0], OPError::CommandError(msg) if msg == "no such file"));
    assert!(matches!(&errors[1], OPError::DeserializeError(msg) if msg == "expected value"));
    assert!(matches!(&errors[2], OPError::CLIError(msg) if msg == "signed out"));
    assert!(matches!(&errors[3], OPError::SaveError(msg) if msg == "permission denied"));
}
