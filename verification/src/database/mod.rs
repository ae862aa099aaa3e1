//! What the service keeps in its database, seen from the verified side.

pub mod id;
pub mod memory;
pub mod page;

use crate::error::ApplicationError;
use crate::error::ErrorView;
use crate::text::same_text;
use vstd::prelude::*;

verus! {

/// Whether the first version stands before the second, as `version-compare`
/// orders them; `None` where one of the two is no version to it.
pub uninterp spec fn version_precedes(version: Seq<char>, other: Seq<char>) -> Option<bool>;

/// `Version::from` on both texts, then `Version::compare_to` with `Cmp::Lt`:
/// whether the first version is the lower one, or nothing where one of the
/// texts does not parse.
#[verifier::external_body]
pub(crate) fn version_lt(version: &str, other: &str) -> (r: Option<bool>)
    ensures
        r == version_precedes(version@, other@),
{
    match (version_compare::Version::from(version), version_compare::Version::from(other)) {
        (Some(a), Some(b)) => Some(a.compare_to(b, version_compare::Cmp::Lt)),
        _ => None,
    }
}

/// One thing to do to the database to bring it up to date.
#[derive(Debug)]
pub enum MigrationStep {
    /// Run the migration, then record its version as migrated.
    Run { version: String, migration: String },
    /// Record this version as migrated.
    Record(String),
}

/// A `MigrationStep` with its texts as sequences of characters.
pub ghost enum MigrationStepView {
    Run { version: Seq<char>, migration: Seq<char> },
    Record(Seq<char>),
}

impl View for MigrationStep {
    type V = MigrationStepView;

    open spec fn view(&self) -> MigrationStepView {
        match self {
            MigrationStep::Run { version, migration } => MigrationStepView::Run {
                version: version@,
                migration: migration@,
            },
            MigrationStep::Record(version) => MigrationStepView::Record(version@),
        }
    }
}

/// The views of some steps, in their order.
pub open spec fn step_views(steps: Seq<MigrationStep>) -> Seq<MigrationStepView> {
    steps.map_values(|s: MigrationStep| s@)
}

/// The views of some migrations, each a version and a query, in their order.
pub open spec fn migration_views(migrations: Seq<(&'static str, &'static str)>) -> Seq<
    (Seq<char>, Seq<char>),
> {
    migrations.map_values(|m: (&'static str, &'static str)| (m.0@, m.1@))
}

/// Each migration as a step to run.
pub open spec fn all_run(migrations: Seq<(Seq<char>, Seq<char>)>) -> Seq<MigrationStepView> {
    migrations.map_values(
        |m: (Seq<char>, Seq<char>)| MigrationStepView::Run { version: m.0, migration: m.1 },
    )
}

/// What is to be done for a database whose last recorded version is `last`,
/// by a service of version `current`. A database without a record only gets
/// one, of the current version. One that is at the current version, or ahead
/// of it, is left alone. One that is behind gets every migration, in the
/// order given; a recorded version that cannot be compared is an internal
/// error where there is a migration to decide on.
pub open spec fn migration_plan(
    last: Option<Seq<char>>,
    current: Seq<char>,
    migrations: Seq<(Seq<char>, Seq<char>)>,
) -> Option<Seq<MigrationStepView>> {
    match last {
        None => Some(seq![MigrationStepView::Record(current)]),
        Some(recorded) => {
            if recorded == current || migrations.len() == 0 {
                Some(Seq::empty())
            } else {
                match version_precedes(recorded, current) {
                    None => None,
                    Some(true) => Some(all_run(migrations)),
                    Some(false) => Some(Seq::empty()),
                }
            }
        },
    }
}

/// Plans the migration of the database: see `migration_plan`.
pub fn migrate(
    last: Option<&str>,
    current_version: &'static str,
    migrations: Vec<(&'static str, &'static str)>,
) -> (r: Result<Vec<MigrationStep>, ApplicationError>)
    ensures
        match migration_plan(
            match last {
                Some(recorded) => Some(recorded@),
                None => None,
            },
            current_version@,
            migration_views(migrations@),
        ) {
            Some(plan) => r is Ok && step_views(r->Ok_0@) == plan,
            None => r is Err && r->Err_0@ == ErrorView::InternalServerError,
        },
{
    let mut steps: Vec<MigrationStep> = Vec::new();
    let recorded = match last {
        Some(recorded) => recorded,
        None => {
            steps.push(MigrationStep::Record(current_version.to_owned()));
            assert(step_views(steps@) =~= seq![MigrationStepView::Record(current_version@)]);
            return Ok(steps);
        },
    };
    if same_text(recorded, current_version) || migrations.len() == 0 {
        assert(step_views(steps@) =~= Seq::<MigrationStepView>::empty());
        return Ok(steps);
    }
    match version_lt(recorded, current_version) {
        None => Err(ApplicationError::InternalServerError),
        Some(false) => {
            assert(step_views(steps@) =~= Seq::<MigrationStepView>::empty());
            Ok(steps)
        },
        Some(true) => {
            let ghost all = migration_views(migrations@);
            let mut i: usize = 0;
            assert(step_views(steps@) =~= all_run(all).subrange(0, 0));
            while i < migrations.len()
                invariant
                    i <= migrations.len(),
                    all == migration_views(migrations@),
                    step_views(steps@) == all_run(all).subrange(0, i as int),
                decreases migrations.len() - i,
            {
                let ghost before = step_views(steps@);
                steps.push(
                    MigrationStep::Run {
                        version: migrations[i].0.to_owned(),
                        migration: migrations[i].1.to_owned(),
                    },
                );
                proof {
                    assert(all[i as int] == (migrations@[i as int].0@, migrations@[i as int].1@));
                    assert(step_views(steps@) =~= before.push(all_run(all)[i as int]));
                    assert(all_run(all).subrange(0, i as int + 1) =~= before.push(
                        all_run(all)[i as int],
                    ));
                }
                i = i + 1;
            }
            assert(all_run(all).subrange(0, i as int) =~= all_run(all));
            Ok(steps)
        },
    }
}

} // verus!
