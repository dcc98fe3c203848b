use vstd::prelude::*;

use crate::user::{row_views, User, UserView};

verus! {

/// The users table as the service assumes it: `rows` in database order, and
/// `next_id` the value the autoincrement column assigns to the next insert.
/// Every id is positive, already assigned ids stay below `next_id`, and no
/// two rows share one.
pub open spec fn table_wf(rows: Seq<UserView>, next_id: int) -> bool {
    &&& 1 <= next_id
    &&& forall|i: int| 0 <= i < rows.len() ==> 1 <= (#[trigger] rows[i]).id < next_id
    &&& forall|i: int, j: int|
        0 <= i < j < rows.len() ==> (#[trigger] rows[i]).id != (#[trigger] rows[j]).id
}

/// The table after one insert: the two bound values are appended as a row
/// under the id the autoincrement column assigns.
pub open spec fn insert_row(
    rows: Seq<UserView>,
    next_id: int,
    name: Seq<char>,
    email: Seq<char>,
) -> Seq<UserView> {
    rows.push(UserView { id: next_id, name, email })
}

/// An insert on a well-formed table leaves it well formed, with the
/// autoincrement advanced by one.
pub proof fn lemma_insert_preserves_wf(
    rows: Seq<UserView>,
    next_id: int,
    name: Seq<char>,
    email: Seq<char>,
)
    requires
        table_wf(rows, next_id),
    ensures
        table_wf(insert_row(rows, next_id, name, email), next_id + 1),
{
}

/// Law: a user created from a valid body appears in a subsequent listing,
/// under a positive id that no row of the table carried before.
pub proof fn lemma_created_user_listed(
    rows: Seq<UserView>,
    next_id: int,
    name: Seq<char>,
    email: Seq<char>,
)
    requires
        table_wf(rows, next_id),
    ensures
        ({
            let listed = insert_row(rows, next_id, name, email);
            &&& exists|i: int|
                0 <= i < listed.len() && (#[trigger] listed[i]).name == name
                    && listed[i].email == email && listed[i].id == next_id && 1 <= listed[i].id
            &&& forall|j: int| 0 <= j < rows.len() ==> (#[trigger] rows[j]).id != next_id
        }),
{
    let listed = insert_row(rows, next_id, name, email);
    assert(listed[rows.len() as int].name == name);
}

/// The create route's whole effect on the table: a body carrying both
/// required fields inserts one row; a body missing either field is turned
/// away at the deserialization boundary and touches nothing.
pub open spec fn create_route_table(
    rows: Seq<UserView>,
    next_id: int,
    name: Option<Seq<char>>,
    email: Option<Seq<char>>,
) -> Seq<UserView> {
    if name is Some && email is Some {
        insert_row(rows, next_id, name->0, email->0)
    } else {
        rows
    }
}

/// Law: a create request whose body lacks `name` or `email` never inserts a
/// row — the table after the route is the table before it.
pub proof fn lemma_missing_field_inserts_nothing(
    rows: Seq<UserView>,
    next_id: int,
    name: Option<Seq<char>>,
    email: Option<Seq<char>>,
)
    requires
        name is None || email is None,
    ensures
        create_route_table(rows, next_id, name, email) == rows,
{
}

/// The rows a batch of creates adds once the database has serialized their
/// inserts in some order: the body at position k of that order is stored
/// under id `next_id + k`.
pub open spec fn assigned_rows(next_id: int, bodies: Seq<(Seq<char>, Seq<char>)>) -> Seq<
    UserView,
> {
    bodies.map(
        |k: int, b: (Seq<char>, Seq<char>)| UserView { id: next_id + k, name: b.0, email: b.1 },
    )
}

/// The table after a whole batch of inserts.
pub open spec fn insert_all(
    rows: Seq<UserView>,
    next_id: int,
    bodies: Seq<(Seq<char>, Seq<char>)>,
) -> Seq<UserView> {
    rows + assigned_rows(next_id, bodies)
}

/// A batch grows one insert at a time: running the batch and then one more
/// insert is the same table as running the extended batch.
pub proof fn lemma_insert_all_step(
    rows: Seq<UserView>,
    next_id: int,
    bodies: Seq<(Seq<char>, Seq<char>)>,
    name: Seq<char>,
    email: Seq<char>,
)
    ensures
        insert_all(rows, next_id, bodies.push((name, email))) == insert_row(
            insert_all(rows, next_id, bodies),
            next_id + bodies.len(),
            name,
            email,
        ),
{
    assert(insert_all(rows, next_id, bodies.push((name, email))) =~= insert_row(
        insert_all(rows, next_id, bodies),
        next_id + bodies.len(),
        name,
        email,
    ));
}

/// Law: however many creates run against the pool at once, the database
/// serializes their inserts, so whatever order it picks, the resulting table
/// is well formed — in particular no two rows, old or new, share an id — and
/// the body at position k of that order is listed under the fresh id
/// `next_id + k`.
pub proof fn lemma_batch_insert_distinct_ids(
    rows: Seq<UserView>,
    next_id: int,
    bodies: Seq<(Seq<char>, Seq<char>)>,
)
    requires
        table_wf(rows, next_id),
    ensures
        table_wf(insert_all(rows, next_id, bodies), next_id + bodies.len()),
        forall|k: int|
            0 <= k < bodies.len() ==> {
                let t = insert_all(rows, next_id, bodies);
                &&& t[rows.len() + k].id == next_id + k
                &&& t[rows.len() + k].name == (#[trigger] bodies[k]).0
                &&& t[rows.len() + k].email == bodies[k].1
            },
{
    let t = insert_all(rows, next_id, bodies);
    assert forall|i: int| 0 <= i < t.len() implies 1 <= (#[trigger] t[i]).id < next_id
        + bodies.len() by {
        if i < rows.len() {
            assert(t[i] == rows[i]);
        } else {
            assert(t[i] == assigned_rows(next_id, bodies)[i - rows.len()]);
        }
    }
    assert forall|i: int, j: int| 0 <= i < j < t.len() implies (#[trigger] t[i]).id != (
    #[trigger] t[j]).id by {
        if j < rows.len() {
            assert(t[i] == rows[i] && t[j] == rows[j]);
        } else if i < rows.len() {
            assert(t[i] == rows[i]);
            assert(t[j].id == next_id + (j - rows.len()));
        } else {
            assert(t[i].id == next_id + (i - rows.len()));
            assert(t[j].id == next_id + (j - rows.len()));
        }
    }
}

/// An in-memory table with exactly the behaviour the service assumes of the
/// external one: rows in insert order, ids assigned by an autoincrement
/// starting at 1. It lets the two routes be exercised end to end without a
/// database.
pub struct Table {
    rows: Vec<User>,
    next_id: u32,
}

impl Table {
    /// The stored rows, as the model sees them.
    pub closed spec fn rows_view(&self) -> Seq<UserView> {
        row_views(self.rows@)
    }

    /// The id the next insert will be assigned.
    pub closed spec fn next_id_spec(&self) -> int {
        self.next_id as int
    }

    /// The table keeps the model's invariant.
    pub open spec fn wf(&self) -> bool {
        table_wf(self.rows_view(), self.next_id_spec())
    }

    /// An empty table whose autoincrement starts at 1.
    pub fn new() -> (t: Table)
        ensures
            t.wf(),
            t.rows_view() == Seq::<UserView>::empty(),
            t.next_id_spec() == 1,
    {
        let t = Table { rows: Vec::new(), next_id: 1 };
        proof {
            assert(t.rows_view() =~= Seq::<UserView>::empty());
        }
        t
    }

    /// Runs one parameterized insert: the two bound values are stored under
    /// the next id, and the autoincrement advances. Returns the assigned id.
    pub fn insert(&mut self, name: String, email: String) -> (id: u32)
        requires
            old(self).wf(),
            old(self).next_id_spec() < u32::MAX as int,
        ensures
            final(self).wf(),
            id as int == old(self).next_id_spec(),
            final(self).rows_view() == insert_row(
                old(self).rows_view(),
                old(self).next_id_spec(),
                name@,
                email@,
            ),
            final(self).next_id_spec() == old(self).next_id_spec() + 1,
    {
        let id = self.next_id;
        let user = User { id, name, email };
        self.rows.push(user);
        self.next_id = id + 1;
        proof {
            assert(self.rows@ == old(self).rows@.push(user));
            assert(self.rows_view() =~= insert_row(
                old(self).rows_view(),
                old(self).next_id_spec(),
                name@,
                email@,
            ));
            lemma_insert_preserves_wf(
                old(self).rows_view(),
                old(self).next_id_spec(),
                name@,
                email@,
            );
        }
        id
    }

    /// Runs the fixed SELECT: every row, in database order, as fresh values.
    pub fn select_all(&self) -> (r: Vec<User>)
        ensures
            row_views(r@) == self.rows_view(),
    {
        let mut out: Vec<User> = Vec::new();
        let mut i: usize = 0;
        while i < self.rows.len()
            invariant
                i <= self.rows@.len(),
                out@.len() == i as int,
                forall|j: int| 0 <= j < i as int ==> (#[trigger] out@[j])@ == self.rows@[j]@,
            decreases self.rows@.len() - i,
        {
            let u: &User = &self.rows[i];
            out.push(User { id: u.id, name: u.name.clone(), email: u.email.clone() });
            i = i + 1;
        }
        proof {
            assert(row_views(out@) =~= row_views(self.rows@));
        }
        out
    }
}

} // verus!
