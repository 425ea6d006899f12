use crate::records::RegistryError;
use vstd::prelude::*;

verus! {

/// The three tables of the registry.
#[derive(Debug, Clone, Copy, PartialEq, Eq, Structural)]
pub enum Table {
    Users,
    Files,
    BannedIps,
}

/// One statement of the bootstrap sequence.
#[derive(Debug, Clone, Copy, PartialEq, Eq, Structural)]
pub enum SchemaStatement {
    CreateUsers,
    CreateFiles,
    CreateBannedIps,
    /// Drops the `files_user_id` foreign key of `files` if it is there.
    DropFilesUserKey,
    /// Adds the `files_user_id` foreign key from `files.uploaded_by` to `users.id`.
    AddFilesUserKey,
}

pub const CREATE_USERS_SQL: &'static str = "create table if not exists `users` (
    `id` int PRIMARY KEY AUTO_INCREMENT,
    `username` varchar(64) not null,
    `hashed_password` varchar(255) not null,
    `email` varchar(255),
    `is_admin` bool not null,
    `api_key` varchar(128),
    `last_update` datetime not null,
    `created_at` datetime not null
);";

pub const CREATE_FILES_SQL: &'static str = "create table if not exists `files` (
    `id` int PRIMARY KEY AUTO_INCREMENT,
    `name` varchar(255) not null,
    `original_name` varchar(255) not null,
    `filetype` varchar(64) not null,
    `file_hash` varchar(255) not null,
    `uploaded_by` int not null,
    `uploaded_by_ip` varchar(50) not null,
    `created_at` datetime not null
);";

pub const CREATE_BANNED_IPS_SQL: &'static str = "create table if not exists `banned_ips` (
    `id` int PRIMARY KEY AUTO_INCREMENT,
    `ip` varchar(50)
);";

pub const DROP_FILES_USER_KEY_SQL: &'static str =
    "alter table `files` drop foreign key if exists `files_user_id`;";

pub const ADD_FILES_USER_KEY_SQL: &'static str =
    "alter table `files` add constraint `files_user_id` foreign key (`uploaded_by`) references `users` (`id`);";

impl SchemaStatement {
    /// The SQL text of the statement.
    pub fn sql(&self) -> (r: &'static str)
        ensures
            r == match *self {
                SchemaStatement::CreateUsers => CREATE_USERS_SQL,
                SchemaStatement::CreateFiles => CREATE_FILES_SQL,
                SchemaStatement::CreateBannedIps => CREATE_BANNED_IPS_SQL,
                SchemaStatement::DropFilesUserKey => DROP_FILES_USER_KEY_SQL,
                SchemaStatement::AddFilesUserKey => ADD_FILES_USER_KEY_SQL,
            },
    {
        match self {
            SchemaStatement::CreateUsers => CREATE_USERS_SQL,
            SchemaStatement::CreateFiles => CREATE_FILES_SQL,
            SchemaStatement::CreateBannedIps => CREATE_BANNED_IPS_SQL,
            SchemaStatement::DropFilesUserKey => DROP_FILES_USER_KEY_SQL,
            SchemaStatement::AddFilesUserKey => ADD_FILES_USER_KEY_SQL,
        }
    }
}

/// The layout of the store as far as the bootstrap touches it: which tables
/// exist, and whether `files` holds the `files_user_id` foreign key (a
/// constraint name is unique within a table, so it is there once or not).
pub struct SchemaState {
    pub tables: Set<Table>,
    pub files_user_key: bool,
}

/// What one statement does to the layout; `None` where the store refuses it.
/// Creating a table that exists leaves it as it is.
pub open spec fn apply_statement(s: SchemaState, st: SchemaStatement) -> Option<SchemaState> {
    match st {
        SchemaStatement::CreateUsers => Some(SchemaState { tables: s.tables.insert(Table::Users), ..s }),
        SchemaStatement::CreateFiles => Some(SchemaState { tables: s.tables.insert(Table::Files), ..s }),
        SchemaStatement::CreateBannedIps => Some(
            SchemaState { tables: s.tables.insert(Table::BannedIps), ..s },
        ),
        SchemaStatement::DropFilesUserKey => if s.tables.contains(Table::Files) {
            Some(SchemaState { files_user_key: false, ..s })
        } else {
            None
        },
        SchemaStatement::AddFilesUserKey => if s.tables.contains(Table::Files) && s.tables.contains(
            Table::Users,
        ) && !s.files_user_key {
            Some(SchemaState { files_user_key: true, ..s })
        } else {
            None
        },
    }
}

/// Runs statements in order, stopping at the first refused one.
pub open spec fn run_statements(s: SchemaState, stmts: Seq<SchemaStatement>) -> Option<SchemaState>
    decreases stmts.len(),
{
    if stmts.len() == 0 {
        Some(s)
    } else {
        match apply_statement(s, stmts[0]) {
            Some(t) => run_statements(t, stmts.drop_first()),
            None => None,
        }
    }
}

/// The bootstrap sequence: the three tables, then the foreign key dropped
/// and added again so that exactly one exists.
pub open spec fn bootstrap_plan_spec() -> Seq<SchemaStatement> {
    seq![
        SchemaStatement::CreateUsers,
        SchemaStatement::CreateFiles,
        SchemaStatement::CreateBannedIps,
        SchemaStatement::DropFilesUserKey,
        SchemaStatement::AddFilesUserKey,
    ]
}

/// The bootstrap sequence, in the order it must run.
pub fn bootstrap_plan() -> (r: Vec<SchemaStatement>)
    ensures
        r@ == bootstrap_plan_spec(),
{
    let r = vec![
        SchemaStatement::CreateUsers,
        SchemaStatement::CreateFiles,
        SchemaStatement::CreateBannedIps,
        SchemaStatement::DropFilesUserKey,
        SchemaStatement::AddFilesUserKey,
    ];
    assert(r@ =~= bootstrap_plan_spec());
    r
}

/// What the bootstrap does next.
#[derive(Debug, Clone, Copy, PartialEq, Eq, Structural)]
pub enum BootstrapAction {
    /// Run this statement and report its outcome.
    Execute(SchemaStatement),
    /// The layout is in place; requests may be served.
    Finished,
    /// A statement failed; the process must not serve requests.
    Abort(RegistryError),
}

/// The bootstrap decision after `completed` statements of the plan ran,
/// the last of them with outcome `last` (`Ok` when none ran yet). A failure
/// aborts, except that the final statement (adding the foreign key) finding
/// the key already in place counts as done: another instance starting at the
/// same time added it. Otherwise the next statement runs until the plan is
/// done.
pub fn bootstrap_step(completed: usize, last: Result<(), RegistryError>) -> (r: BootstrapAction)
    ensures
        match last {
            Err(e) => if e == RegistryError::AlreadyExists && completed == bootstrap_plan_spec().len() {
                r == BootstrapAction::Finished
            } else {
                r == BootstrapAction::Abort(e)
            },
            Ok(_) => if completed < bootstrap_plan_spec().len() {
                r == BootstrapAction::Execute(bootstrap_plan_spec()[completed as int])
            } else {
                r == BootstrapAction::Finished
            },
        },
{
    let plan = bootstrap_plan();
    match last {
        Err(RegistryError::AlreadyExists) => if completed == plan.len() {
            BootstrapAction::Finished
        } else {
            BootstrapAction::Abort(RegistryError::AlreadyExists)
        },
        Err(e) => BootstrapAction::Abort(e),
        Ok(_) => {
            if completed < plan.len() {
                BootstrapAction::Execute(plan[completed])
            } else {
                BootstrapAction::Finished
            }
        },
    }
}

/// When the store refuses to add the foreign key to a layout that has both
/// tables, the key is already there: the layout is the one a completed
/// bootstrap leaves, so treating that refusal as success is sound.
pub proof fn law_refused_key_is_present(s: SchemaState)
    requires
        s.tables.contains(Table::Users),
        s.tables.contains(Table::Files),
        apply_statement(s, SchemaStatement::AddFilesUserKey) is None,
    ensures
        s.files_user_key,
{
}

/// The bootstrap succeeds from any layout, leaves all three tables and
/// exactly one `files_user_id` key, and running it a second time changes
/// nothing.
pub proof fn law_bootstrap_idempotent(s: SchemaState)
    ensures
        run_statements(s, bootstrap_plan_spec()) is Some,
        run_statements(s, bootstrap_plan_spec())->Some_0.tables == s.tables.insert(Table::Users).insert(
            Table::Files,
        ).insert(Table::BannedIps),
        run_statements(s, bootstrap_plan_spec())->Some_0.files_user_key,
        run_statements(run_statements(s, bootstrap_plan_spec())->Some_0, bootstrap_plan_spec()) == run_statements(
            s,
            bootstrap_plan_spec(),
        ),
{
    let plan = bootstrap_plan_spec();
    reveal_with_fuel(run_statements, 6);
    assert(plan.drop_first() =~= seq![
        SchemaStatement::CreateFiles,
        SchemaStatement::CreateBannedIps,
        SchemaStatement::DropFilesUserKey,
        SchemaStatement::AddFilesUserKey,
    ]);
    assert(plan.drop_first().drop_first() =~= seq![
        SchemaStatement::CreateBannedIps,
        SchemaStatement::DropFilesUserKey,
        SchemaStatement::AddFilesUserKey,
    ]);
    assert(plan.drop_first().drop_first().drop_first() =~= seq![
        SchemaStatement::DropFilesUserKey,
        SchemaStatement::AddFilesUserKey,
    ]);
    assert(plan.drop_first().drop_first().drop_first().drop_first() =~= seq![
        SchemaStatement::AddFilesUserKey,
    ]);
    assert(plan.drop_first().drop_first().drop_first().drop_first().drop_first() =~= Seq::<
        SchemaStatement,
    >::empty());
    let tables = s.tables.insert(Table::Users).insert(Table::Files).insert(Table::BannedIps);
    let t = SchemaState { tables, files_user_key: true };
    assert(run_statements(s, plan) == Some(t));
    assert(tables.insert(Table::Users).insert(Table::Files).insert(Table::BannedIps) =~= tables);
    assert(run_statements(t, plan) == Some(t));
}

} // verus!
