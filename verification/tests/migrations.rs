use property_backend::migrations::{
    check_versions_ascending, migration_list, pending_after, MigrationKind, MigrationStep,
};

fn step(version: i64) -> MigrationStep {
    MigrationStep {
        version,
        description: "step",
        sql: "SELECT 1;",
        kind: MigrationKind::Up,
    }
}

#[test]
fn list_has_sixteen_steps() {
    assert_eq!(migration_list().len(), 16);
}

#[test]
fn versions_are_consecutive_from_one() {
    let list = migration_list();
    for (i, s) in list.iter().enumerate() {
        assert_eq!(s.version, i as i64 + 1);
        assert_eq!(s.kind, MigrationKind::Up);
    }
}

#[test]
fn descriptions_match_the_history() {
    let expected = [
        "create_users_table_and_seed_data",
        "create_payments_table_and_seed_data",
        "create_tenant_info_table_and_seed_data",
        "create_units_table_and_seed_data",
        "create_tenants_table_and_seed_data",
        "create_properties_table_and_seed_data",
        "create_blocks_table_and_seed_data",
        "create_expenses_table_and_seed_data",
        "create_recent_activities_table_and_seed_data",
        "create_tasks_table_and_seed_data",
        "create_managers_table_and_seed_data",
        "seed_managers_table",
        "seed_managers_table",
        "create_indexes_on_payments_table",
        "create_complaints_table",
        "create_complaints_table",
    ];
    let list = migration_list();
    assert_eq!(list.len(), expected.len());
    for (s, d) in list.iter().zip(expected.iter()) {
        assert_eq!(s.description, *d);
    }
}

#[test]
fn each_step_touches_its_object() {
    let expected = [
        "CREATE TABLE IF NOT EXISTS users",
        "CREATE TABLE IF NOT EXISTS payments",
        "CREATE TABLE IF NOT EXISTS tenants",
        "CREATE TABLE IF NOT EXISTS units",
        "CREATE TABLE leases",
        "CREATE TABLE IF NOT EXISTS properties",
        "CREATE TABLE IF NOT EXISTS blocks",
        "CREATE TABLE IF NOT EXISTS expenses",
        "CREATE TABLE IF NOT EXISTS recent_activities",
        "CREATE TABLE IF NOT EXISTS tasks",
        "CREATE TABLE IF NOT EXISTS managers",
        "INSERT INTO managers",
        "ALTER TABLE payments ADD COLUMN payment_month",
        "CREATE INDEX idx_payment_month ON payments(payment_month)",
        "CREATE TABLE IF NOT EXISTS complaints",
        "ALTER TABLE units RENAME COLUMN bedroom_count",
    ];
    let list = migration_list();
    assert_eq!(list.len(), expected.len());
    for (s, fragment) in list.iter().zip(expected.iter()) {
        assert!(
            s.sql.contains(fragment),
            "step {} does not contain {:?}",
            s.version,
            fragment
        );
    }
}

#[test]
fn first_step_sql_in_full() {
    let list = migration_list();
    assert_eq!(
        list[0].sql,
        "\n    CREATE TABLE IF NOT EXISTS users (\n        user_id INTEGER PRIMARY KEY AUTOINCREMENT,\n        name TEXT NOT NULL,\n        email TEXT UNIQUE NOT NULL\n    );\n"
    );
}

#[test]
fn seed_step_lists_the_three_managers() {
    let list = migration_list();
    let seed = list[11].sql;
    assert!(seed.contains("'Alice Johnson', 'alice.j@example.com', '111-222-3333', '2023-01-15'"));
    assert!(seed.contains("'Bob Smith', 'bob.s@example.com', '444-555-6666', '2022-07-01'"));
    assert!(seed.contains("'Carol White', 'carol.w@example.com', '777-888-9999', '2024-03-20'"));
}

#[test]
fn the_list_passes_the_ascending_check() {
    let list = migration_list();
    assert!(check_versions_ascending(&list));
}

#[test]
fn ascending_check_accepts_empty_and_single() {
    assert!(check_versions_ascending(&vec![]));
    assert!(check_versions_ascending(&vec![step(5)]));
}

#[test]
fn ascending_check_rejects_a_repeat() {
    assert!(!check_versions_ascending(&vec![step(1), step(2), step(2)]));
}

#[test]
fn ascending_check_rejects_a_drop() {
    assert!(!check_versions_ascending(&vec![step(3), step(1)]));
}

#[test]
fn nothing_pending_at_the_latest_version() {
    let list = migration_list();
    assert!(pending_after(&list, 16).is_empty());
}

#[test]
fn everything_pending_on_a_fresh_database() {
    let list = migration_list();
    let pending = pending_after(&list, 0);
    assert_eq!(pending.len(), 16);
    assert_eq!(pending[0].version, 1);
    assert_eq!(pending[15].version, 16);
}

#[test]
fn only_later_steps_pending_midway() {
    let list = migration_list();
    let pending = pending_after(&list, 13);
    let versions: Vec<i64> = pending.iter().map(|s| s.version).collect();
    assert_eq!(versions, vec![14, 15, 16]);
}

#[test]
fn pending_keeps_the_given_order() {
    let steps = vec![step(5), step(2), step(9)];
    let pending = pending_after(&steps, 4);
    let versions: Vec<i64> = pending.iter().map(|s| s.version).collect();
    assert_eq!(versions, vec![5, 9]);
}
