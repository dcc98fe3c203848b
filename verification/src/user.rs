use vstd::prelude::*;

verus! {

/// A row of the users table as the service returns it. The database assigns
/// `id` on insert; the service never generates or checks it. `name` and
/// `email` are carried through from the create request unchanged.
pub struct User {
    pub id: u32,
    pub name: String,
    pub email: String,
}

/// Mathematical image of a row: the id as an unbounded integer and the two
/// text fields as character sequences.
pub struct UserView {
    pub id: int,
    pub name: Seq<char>,
    pub email: Seq<char>,
}

impl View for User {
    type V = UserView;

    open spec fn view(&self) -> UserView {
        UserView { id: self.id as int, name: self.name@, email: self.email@ }
    }
}

/// Image of a whole result set, row by row.
pub open spec fn row_views(rows: Seq<User>) -> Seq<UserView> {
    rows.map_values(|u: User| u@)
}

/// The JSON body of a create reply. Only `success` tells the caller how the
/// insert went; the transport status never varies with the outcome.
pub struct ApiResponse {
    pub success: bool,
    pub message: String,
}

} // verus!
