//! The database schema, as an ordered list of SQL migrations.
//!
//! Each step carries a version number, a human-readable description, the SQL
//! text to run, and a direction. A migration runner applies the steps whose
//! version is above the schema version already stored in the database, in
//! ascending order, each exactly once; [`pending_after`] says exactly which
//! steps those are.

use vstd::prelude::*;

verus! {

/// Direction of a migration step: applied when moving the schema forward
/// (`Up`) or when rolling it back (`Down`). Every step of this library's
/// schema is an `Up` step.
#[derive(Clone, Copy, PartialEq, Eq, Structural, Debug)]
pub enum MigrationKind {
    Up,
    Down,
}

/// One schema migration: a versioned SQL script.
#[derive(Clone, Copy, Debug)]
pub struct MigrationStep {
    /// Position in the migration order; versions start at 1 and ascend.
    pub version: i64,
    /// Short name of what the step does.
    pub description: &'static str,
    /// The SQL to run when the step is applied.
    pub sql: &'static str,
    /// Whether the step moves the schema forward or back.
    pub kind: MigrationKind,
}

/// Version 1: the `users` table.
pub const CREATE_USERS_SQL: &'static str = "
    CREATE TABLE IF NOT EXISTS users (
        user_id INTEGER PRIMARY KEY AUTOINCREMENT,
        name TEXT NOT NULL,
        email TEXT UNIQUE NOT NULL
    );
";

/// Version 2: the `payments` table.
pub const CREATE_PAYMENTS_SQL: &'static str = "
    CREATE TABLE IF NOT EXISTS payments (
        payment_id TEXT PRIMARY KEY NOT NULL,           -- UUID recommended
        tenant_id TEXT NOT NULL,                        -- FK to tenants table
        unit_id TEXT NOT NULL,                          -- FK to units table
        property_id TEXT NOT NULL,                      -- FK to properties table
        amount_paid DECIMAL(10, 2) NOT NULL,            -- Accurate money representation
        payment_date DATE NOT NULL,                     -- When payment was made
        due_date DATE NOT NULL,                         -- When it was due
        payment_status TEXT NOT NULL CHECK (payment_status IN ('Paid', 'Pending', 'Overdue')),
        payment_method TEXT NOT NULL CHECK (payment_method IN ('Cash', 'Bank Transfer', 'Credit Card', 'Mobile Money', 'Check', 'Other')),
        payment_category TEXT NOT NULL CHECK (payment_category IN ('Rent', 'Utilities', 'Deposit', 'Other')),
        receipt_number TEXT UNIQUE,                     -- Optional: receipt/tracking number
        transaction_reference TEXT,                     -- Optional: e.g., M-Pesa code
        remarks TEXT,                                   -- Optional: freeform comments
        created_at DATETIME DEFAULT CURRENT_TIMESTAMP,  -- Timestamp for creation
        updated_at DATETIME DEFAULT CURRENT_TIMESTAMP   -- Timestamp for updates
    );
";

/// Version 3: the `tenants` table.
pub const CREATE_TENANTS_SQL: &'static str = "
    CREATE TABLE IF NOT EXISTS tenants (
        tenant_id INTEGER PRIMARY KEY AUTOINCREMENT,
        full_name TEXT NOT NULL,
        phone_number TEXT,
        email TEXT,
        id_number TEXT,
        lease_start_date DATE NOT NULL,
        lease_end_date DATE NOT NULL,
        rent_amount DECIMAL(10, 2),
        deposit_amount DECIMAL(10, 2),
        unit_id INTEGER, -- should reference unit or property
        status TEXT DEFAULT 'active',
        created_at DATETIME DEFAULT CURRENT_TIMESTAMP,
        updated_at DATETIME DEFAULT CURRENT_TIMESTAMP
    );
";

/// Version 4: the `units` table.
pub const CREATE_UNITS_SQL: &'static str = "
    CREATE TABLE IF NOT EXISTS units (
        unit_id INTEGER PRIMARY KEY AUTOINCREMENT,
        unit_number TEXT NOT NULL,
        property_id INTEGER NOT NULL,
        block_id TEXT,
        floor_number INTEGER,
        unit_status TEXT NOT NULL, -- e.g. 'vacant', 'occupied', etc.
        unit_type TEXT NOT NULL,
        bedroom_count INTEGER NOT NULL,
        bathroom_count INTEGER NOT NULL,
        monthly_rent DECIMAL(10, 2),
        security_deposit DECIMAL(10, 2),
        tenant_id INTEGER,
        notes TEXT,
        FOREIGN KEY (property_id) REFERENCES properties(property_id),
        FOREIGN KEY (tenant_id) REFERENCES tenants(tenant_id)
    );
";

/// Version 5: the `leases` table.
pub const CREATE_LEASES_SQL: &'static str = "
    CREATE TABLE leases (
        lease_id INTEGER PRIMARY KEY AUTOINCREMENT,
        tenant_id INTEGER NOT NULL,
        unit_id INTEGER NOT NULL,
        rent_amount DECIMAL(10,2),
        lease_start_date DATE NOT NULL,
        lease_end_date DATE NOT NULL,
        deposit_paid DECIMAL(10,2),
        status TEXT DEFAULT 'active', -- optional: active/expired/terminated
        FOREIGN KEY (tenant_id) REFERENCES tenants(tenant_id),
        FOREIGN KEY (unit_id) REFERENCES units(unit_id)
    );
";

/// Version 6: the `properties` table.
pub const CREATE_PROPERTIES_SQL: &'static str = "
    CREATE TABLE IF NOT EXISTS properties (
        property_id INTEGER PRIMARY KEY AUTOINCREMENT,
        name TEXT NOT NULL,
        address TEXT NOT NULL,
        total_units INTEGER NOT NULL,
        property_type TEXT NOT NULL,
        status TEXT NOT NULL DEFAULT 'active',
        last_inspection DATE,
        manager_id INTEGER NOT NULL,
        created_at DATETIME DEFAULT CURRENT_TIMESTAMP,
        updated_at DATETIME DEFAULT CURRENT_TIMESTAMP,
        FOREIGN KEY (manager_id) REFERENCES managers(manager_id)
    );
";

/// Version 7: the `blocks` table.
pub const CREATE_BLOCKS_SQL: &'static str = "
    CREATE TABLE IF NOT EXISTS blocks (
        block_id INTEGER PRIMARY KEY AUTOINCREMENT,
        block_name TEXT NOT NULL,
        property_id INTEGER NOT NULL,
        floor_count INTEGER,
        notes TEXT,
        FOREIGN KEY (property_id) REFERENCES properties(property_id)
    );
";

/// Version 8: the `expenses` table.
pub const CREATE_EXPENSES_SQL: &'static str = "
    CREATE TABLE IF NOT EXISTS expenses (
        expense_id INTEGER PRIMARY KEY AUTOINCREMENT,
        amount DECIMAL(10, 2) NOT NULL,
        category TEXT NOT NULL, -- e.g., maintenance, utility
        description TEXT,
        expense_date DATE NOT NULL,
        unit_id INTEGER, -- optional, if this expense is unit-specific
        block_id INTEGER, -- optional, if this expense is block-specific
        property_id INTEGER, -- optional, for property-wide expenses
        payment_method TEXT NOT NULL, -- e.g., cash, bank, M-Pesa
        vendor TEXT NOT NULL,
        invoice_number TEXT,
        paid_by TEXT, -- who entered or approved the expense
        created_at DATETIME DEFAULT CURRENT_TIMESTAMP,
        FOREIGN KEY (unit_id) REFERENCES units(unit_id),
        FOREIGN KEY (block_id) REFERENCES blocks(block_id),
        FOREIGN KEY (property_id) REFERENCES properties(property_id)
    );
";

/// Version 9: the `recent_activities` table.
pub const CREATE_RECENT_ACTIVITIES_SQL: &'static str = "
    CREATE TABLE IF NOT EXISTS recent_activities (
        recent_activity_id INTEGER PRIMARY KEY AUTOINCREMENT,
        activity_type TEXT NOT NULL,
        message TEXT KEY NOT NULL, -- Message as primary key assuming messages are unique for simplicity
        time TEXT NOT NULL
    );
";

/// Version 10: the `tasks` table.
pub const CREATE_TASKS_SQL: &'static str = "
    CREATE TABLE IF NOT EXISTS tasks (
        task_id INTEGER PRIMARY KEY AUTOINCREMENT,
        task_name TEXT UNIQUE NOT NULL,
        due_date TEXT NOT NULL,
        priority TEXT NOT NULL
    );
";

/// Version 11: the `managers` table.
pub const CREATE_MANAGERS_SQL: &'static str = "
    CREATE TABLE IF NOT EXISTS managers (
        manager_id INTEGER PRIMARY KEY AUTOINCREMENT,
        name TEXT NOT NULL,
        email TEXT,
        phone TEXT NOT NULL,
        hire_date TEXT NOT NULL
    );
";

/// Version 12: three seed rows for the `managers` table.
pub const SEED_MANAGERS_SQL: &'static str = "
    -- Seed data for the managers table
    INSERT INTO managers (name, email, phone, hire_date) VALUES
    ('Alice Johnson', 'alice.j@example.com', '111-222-3333', '2023-01-15'),
    ('Bob Smith', 'bob.s@example.com', '444-555-6666', '2022-07-01'),
    ('Carol White', 'carol.w@example.com', '777-888-9999', '2024-03-20');
";

/// Version 13: a derived `payment_month` column on `payments`.
pub const ADD_PAYMENT_MONTH_SQL: &'static str = "
    ALTER TABLE payments ADD COLUMN payment_month TEXT NOT NULL DEFAULT '';
    UPDATE payments SET payment_month = strftime('%Y-%m', due_date) WHERE payment_month = '';
";

/// Version 14: indexes on the `payments` table.
pub const CREATE_PAYMENT_INDEXES_SQL: &'static str = "
    CREATE INDEX idx_payment_month ON payments(payment_month);
    CREATE INDEX idx_tenant_id ON payments(tenant_id);
    CREATE INDEX idx_unit_id ON payments(unit_id);
";

/// Version 15: the `complaints` table.
pub const CREATE_COMPLAINTS_SQL: &'static str = "
    CREATE TABLE IF NOT EXISTS complaints (
        complaint_id INTEGER PRIMARY KEY AUTOINCREMENT,
        unit_id INTEGER NOT NULL,
        tenant_id INTEGER,
        description TEXT NOT NULL,
        status TEXT NOT NULL CHECK(status IN ('Open', 'In Progress', 'Resolved')),
        created_at TEXT DEFAULT (datetime('now')),
        updated_at TEXT DEFAULT (datetime('now')),
        FOREIGN KEY (unit_id) REFERENCES units(unit_id),
        FOREIGN KEY (tenant_id) REFERENCES tenants(tenant_id)
    );
";

/// Version 16: rebuild the room-count columns of `units` with a wider type,
/// by rename, copy and drop, since SQLite cannot change a column in place.
pub const REBUILD_ROOM_COUNTS_SQL: &'static str = "
    ALTER TABLE units RENAME COLUMN bedroom_count TO old_bedroom_count;
    ALTER TABLE units ADD COLUMN bedroom_count REAL;
    UPDATE units SET bedroom_count = old_bedroom_count;
    ALTER TABLE units DROP COLUMN old_bedroom_count;

    ALTER TABLE units RENAME COLUMN bathroom_count TO old_bathroom_count;
    ALTER TABLE units ADD COLUMN bathroom_count REAL;
    UPDATE units SET bathroom_count = old_bathroom_count;
    ALTER TABLE units DROP COLUMN old_bathroom_count;
";

/// Versions strictly ascend along the list, so no version repeats and a
/// runner that applies the list front to back applies it in version order.
pub open spec fn versions_ascending(s: Seq<MigrationStep>) -> bool {
    forall|i: int, j: int| 0 <= i < j < s.len() ==> s[i].version < s[j].version
}

/// `s` is the forward step numbered `version`, described by `description`
/// and running `sql`.
pub open spec fn step_is(
    s: MigrationStep,
    version: int,
    description: Seq<char>,
    sql: Seq<char>,
) -> bool {
    &&& s.version == version
    &&& s.description@ == description
    &&& s.sql@ == sql
    &&& s.kind == MigrationKind::Up
}

/// The full migration history of the schema: sixteen forward steps,
/// numbered 1 through 16 in the order they must be applied.
pub fn migration_list() -> (r: Vec<MigrationStep>)
    ensures
        r@.len() == 16,
        versions_ascending(r@),
        step_is(r@[0], 1, "create_users_table_and_seed_data"@, CREATE_USERS_SQL@),
        step_is(r@[1], 2, "create_payments_table_and_seed_data"@, CREATE_PAYMENTS_SQL@),
        step_is(r@[2], 3, "create_tenant_info_table_and_seed_data"@, CREATE_TENANTS_SQL@),
        step_is(r@[3], 4, "create_units_table_and_seed_data"@, CREATE_UNITS_SQL@),
        step_is(r@[4], 5, "create_tenants_table_and_seed_data"@, CREATE_LEASES_SQL@),
        step_is(r@[5], 6, "create_properties_table_and_seed_data"@, CREATE_PROPERTIES_SQL@),
        step_is(r@[6], 7, "create_blocks_table_and_seed_data"@, CREATE_BLOCKS_SQL@),
        step_is(r@[7], 8, "create_expenses_table_and_seed_data"@, CREATE_EXPENSES_SQL@),
        step_is(
            r@[8],
            9,
            "create_recent_activities_table_and_seed_data"@,
            CREATE_RECENT_ACTIVITIES_SQL@,
        ),
        step_is(r@[9], 10, "create_tasks_table_and_seed_data"@, CREATE_TASKS_SQL@),
        step_is(r@[10], 11, "create_managers_table_and_seed_data"@, CREATE_MANAGERS_SQL@),
        step_is(r@[11], 12, "seed_managers_table"@, SEED_MANAGERS_SQL@),
        step_is(r@[12], 13, "seed_managers_table"@, ADD_PAYMENT_MONTH_SQL@),
        step_is(r@[13], 14, "create_indexes_on_payments_table"@, CREATE_PAYMENT_INDEXES_SQL@),
        step_is(r@[14], 15, "create_complaints_table"@, CREATE_COMPLAINTS_SQL@),
        step_is(r@[15], 16, "create_complaints_table"@, REBUILD_ROOM_COUNTS_SQL@),
{
    let mut r: Vec<MigrationStep> = Vec::new();
    r.push(
        MigrationStep {
            version: 1,
            description: "create_users_table_and_seed_data",
            sql: CREATE_USERS_SQL,
            kind: MigrationKind::Up,
        },
    );
    r.push(
        MigrationStep {
            version: 2,
            description: "create_payments_table_and_seed_data",
            sql: CREATE_PAYMENTS_SQL,
            kind: MigrationKind::Up,
        },
    );
    r.push(
        MigrationStep {
            version: 3,
            description: "create_tenant_info_table_and_seed_data",
            sql: CREATE_TENANTS_SQL,
            kind: MigrationKind::Up,
        },
    );
    r.push(
        MigrationStep {
            version: 4,
            description: "create_units_table_and_seed_data",
            sql: CREATE_UNITS_SQL,
            kind: MigrationKind::Up,
        },
    );
    r.push(
        MigrationStep {
            version: 5,
            description: "create_tenants_table_and_seed_data",
            sql: CREATE_LEASES_SQL,
            kind: MigrationKind::Up,
        },
    );
    r.push(
        MigrationStep {
            version: 6,
            description: "create_properties_table_and_seed_data",
            sql: CREATE_PROPERTIES_SQL,
            kind: MigrationKind::Up,
        },
    );
    r.push(
        MigrationStep {
            version: 7,
            description: "create_blocks_table_and_seed_data",
            sql: CREATE_BLOCKS_SQL,
            kind: MigrationKind::Up,
        },
    );
    r.push(
        MigrationStep {
            version: 8,
            description: "create_expenses_table_and_seed_data",
            sql: CREATE_EXPENSES_SQL,
            kind: MigrationKind::Up,
        },
    );
    r.push(
        MigrationStep {
            version: 9,
            description: "create_recent_activities_table_and_seed_data",
            sql: CREATE_RECENT_ACTIVITIES_SQL,
            kind: MigrationKind::Up,
        },
    );
    r.push(
        MigrationStep {
            version: 10,
            description: "create_tasks_table_and_seed_data",
            sql: CREATE_TASKS_SQL,
            kind: MigrationKind::Up,
        },
    );
    r.push(
        MigrationStep {
            version: 11,
            description: "create_managers_table_and_seed_data",
            sql: CREATE_MANAGERS_SQL,
            kind: MigrationKind::Up,
        },
    );
    r.push(
        MigrationStep {
            version: 12,
            description: "seed_managers_table",
            sql: SEED_MANAGERS_SQL,
            kind: MigrationKind::Up,
        },
    );
    r.push(
        MigrationStep {
            version: 13,
            description: "seed_managers_table",
            sql: ADD_PAYMENT_MONTH_SQL,
            kind: MigrationKind::Up,
        },
    );
    r.push(
        MigrationStep {
            version: 14,
            description: "create_indexes_on_payments_table",
            sql: CREATE_PAYMENT_INDEXES_SQL,
            kind: MigrationKind::Up,
        },
    );
    r.push(
        MigrationStep {
            version: 15,
            description: "create_complaints_table",
            sql: CREATE_COMPLAINTS_SQL,
            kind: MigrationKind::Up,
        },
    );
    r.push(
        MigrationStep {
            version: 16,
            description: "create_complaints_table",
            sql: REBUILD_ROOM_COUNTS_SQL,
            kind: MigrationKind::Up,
        },
    );
    r
}

/// The steps of `s` that a runner still has to apply when the schema is
/// already at version `current`: those with a higher version, in order.
pub open spec fn pending_of(s: Seq<MigrationStep>, current: i64) -> Seq<MigrationStep> {
    s.filter(|st: MigrationStep| st.version > current)
}

proof fn lemma_pending_push(s: Seq<MigrationStep>, x: MigrationStep, current: i64)
    ensures
        pending_of(s.push(x), current) == if x.version > current {
            pending_of(s, current).push(x)
        } else {
            pending_of(s, current)
        },
{
    reveal_with_fuel(Seq::<MigrationStep>::filter, 2);
    assert(s.push(x).drop_last() =~= s);
    assert(s.push(x).last() == x);
}

/// Whatever version the schema is already at, the steps still pending keep
/// strictly ascending versions, so a runner that applies them front to back
/// applies them in version order; and each pending step comes from the list.
pub proof fn lemma_pending_keeps_versions_ascending(s: Seq<MigrationStep>, current: i64)
    requires
        versions_ascending(s),
    ensures
        versions_ascending(pending_of(s, current)),
        forall|i: int|
            0 <= i < pending_of(s, current).len() ==> s.contains(
                #[trigger] pending_of(s, current)[i],
            ),
    decreases s.len(),
{
    reveal_with_fuel(Seq::<MigrationStep>::filter, 2);
    if s.len() > 0 {
        let init = s.drop_last();
        let x = s.last();
        assert(init.push(x) =~= s);
        lemma_pending_keeps_versions_ascending(init, current);
        lemma_pending_push(init, x, current);
        let p = pending_of(s, current);
        let q = pending_of(init, current);
        assert forall|i: int| 0 <= i < p.len() implies s.contains(p[i]) by {
            if i < q.len() {
                let j = choose|j: int| 0 <= j < init.len() && init[j] == q[i];
                assert(s[j] == q[i]);
            } else {
                assert(s[s.len() - 1] == p[i]);
            }
        }
        assert forall|i: int, j: int| 0 <= i < j < p.len() implies p[i].version < p[j].version by {
            if j < q.len() {
                assert(q[i].version < q[j].version);
            } else {
                let k = choose|k: int| 0 <= k < init.len() && init[k] == q[i];
                assert(s[k].version < x.version);
            }
        }
    }
}

/// Selects the steps of `steps` that are still pending once the schema is at
/// version `current`, keeping their order.
pub fn pending_after(steps: &Vec<MigrationStep>, current: i64) -> (r: Vec<MigrationStep>)
    ensures
        r@ == pending_of(steps@, current),
{
    let mut r: Vec<MigrationStep> = Vec::new();
    let mut k: usize = 0;
    while k < steps.len()
        invariant
            k <= steps.len(),
            r@ == pending_of(steps@.take(k as int), current),
        decreases steps.len() - k,
    {
        let s = steps[k];
        if s.version > current {
            r.push(s);
        }
        proof {
            assert(steps@.take(k as int).push(steps@[k as int]) =~= steps@.take(k + 1));
            lemma_pending_push(steps@.take(k as int), steps@[k as int], current);
        }
        k = k + 1;
    }
    proof {
        assert(steps@.take(steps@.len() as int) =~= steps@);
    }
    r
}

/// Checks that the versions of `steps` strictly ascend along the list.
pub fn check_versions_ascending(steps: &Vec<MigrationStep>) -> (r: bool)
    ensures
        r == versions_ascending(steps@),
{
    let mut k: usize = 1;
    while k < steps.len()
        invariant
            1 <= k,
            forall|i: int, j: int| 0 <= i < j < k ==> steps@[i].version < steps@[j].version,
        decreases steps.len() - k,
    {
        if steps[k - 1].version >= steps[k].version {
            return false;
        }
        assert forall|i: int, j: int| 0 <= i < j < k + 1 implies steps@[i].version
            < steps@[j].version by {
            if i < k - 1 {
                assert(steps@[i].version < steps@[k - 1].version);
            }
        }
        k = k + 1;
    }
    true
}

} // verus!
