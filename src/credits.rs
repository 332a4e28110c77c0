use vstd::prelude::*;

use crate::error::Error;
use crate::row::{at_text, at_u64, get_text, get_u64, row_views};
use crate::store::Cell;

verus! {

/// A person credited as an actor, with the role played.
#[derive(Debug)]
pub struct Cast {
    /// The user whose watch marks the record carries.
    pub user: String,
    /// The person id.
    pub id: u64,
    pub character: String,
    /// Billing order.
    pub ord: u64,
    pub name: String,
    pub profile_path: String,
}

/// Whether every column that a cast needs holds a value of the right type.
pub open spec fn cast_row_ok(row: Seq<Cell>) -> bool {
    &&& at_u64(row, 0) is Some
    &&& at_text(row, 1) is Some
    &&& at_u64(row, 2) is Some
    &&& at_text(row, 3) is Some
    &&& at_text(row, 4) is Some
}

impl Cast {
    /// Whether this record is what `row` holds, read for `user`.
    pub open spec fn decodes(&self, user: Seq<char>, row: Seq<Cell>) -> bool {
        &&& self.user@ == user
        &&& at_u64(row, 0) == Some(self.id)
        &&& at_text(row, 1) == Some(self.character@)
        &&& at_u64(row, 2) == Some(self.ord)
        &&& at_text(row, 3) == Some(self.name@)
        &&& at_text(row, 4) == Some(self.profile_path@)
    }

    /// Reads one result row.
    pub fn from_row(user: &String, row: &Vec<Cell>) -> (r: Result<Cast, Error>)
        ensures
            match r {
                Ok(x) => x.decodes(user@, row@),
                Err(e) => e.kind is Decode && !cast_row_ok(row@),
            },
    {
        let id = get_u64(row, 0, "cast")?;
        let character = get_text(row, 1, "cast")?;
        let ord = get_u64(row, 2, "cast")?;
        let name = get_text(row, 3, "cast")?;
        let profile_path = get_text(row, 4, "cast")?;
        Ok(Cast { user: user.clone(), id, character, ord, name, profile_path })
    }

    /// Whether the records are, one for one, what the rows hold.
    pub open spec fn all_decode(v: Seq<Cast>, user: Seq<char>, rows: Seq<Seq<Cell>>) -> bool {
        &&& v.len() == rows.len()
        &&& forall|i: int| 0 <= i < v.len() ==> (#[trigger] v[i]).decodes(user, rows[i])
    }

    /// Reads every result row, in order; fails on the first row that does not decode.
    pub fn from_rows(user: &String, rows: &Vec<Vec<Cell>>) -> (r: Result<Vec<Cast>, Error>)
        ensures
            r matches Ok(v) ==> Cast::all_decode(v@, user@, row_views(rows@)),
            match r {
                Ok(v) => v@.len() == rows@.len() && forall|i: int|
                    0 <= i < rows@.len() ==> (#[trigger] v@[i]).decodes(user@, rows@[i]@),
                Err(e) => e.kind is Decode && exists|i: int|
                    0 <= i < rows@.len() && !cast_row_ok(#[trigger] rows@[i]@),
            },
    {
        let mut out: Vec<Cast> = Vec::new();
        let n = rows.len();
        let mut i: usize = 0;
        while i < n
            invariant
                n == rows@.len(),
                i <= n,
                out@.len() == i,
                forall|j: int| 0 <= j < i ==> (#[trigger] out@[j]).decodes(user@, rows@[j]@),
            decreases n - i,
        {
            let x = Cast::from_row(user, &rows[i])?;
            out.push(x);
            i = i + 1;
        }
        proof {
            assert forall|i: int| 0 <= i < out@.len() implies (#[trigger] out@[i]).decodes(
                user@, row_views(rows@)[i],
            ) by {
                assert(row_views(rows@)[i] == rows@[i]@);
            }
        }
        Ok(out)
    }

    /// Reads the first result row, if there is one.
    pub fn first_of(user: &String, rows: &Vec<Vec<Cell>>) -> (r: Result<Option<Cast>, Error>)
        ensures
            match r {
                Ok(Some(x)) => rows@.len() > 0 && x.decodes(user@, rows@[0]@),
                Ok(None) => rows@.len() == 0,
                Err(e) => e.kind is Decode && rows@.len() > 0 && !cast_row_ok(rows@[0]@),
            },
    {
        if rows.len() == 0 {
            return Ok(None);
        }
        let x = Cast::from_row(user, &rows[0])?;
        Ok(Some(x))
    }
}
/// A person credited for a job.
#[derive(Debug)]
pub struct Crew {
    /// The user whose watch marks the record carries.
    pub user: String,
    /// The person id.
    pub id: u64,
    pub job: String,
    pub name: String,
    pub profile_path: String,
}

/// Whether every column that a crew needs holds a value of the right type.
pub open spec fn crew_row_ok(row: Seq<Cell>) -> bool {
    &&& at_u64(row, 0) is Some
    &&& at_text(row, 1) is Some
    &&& at_text(row, 2) is Some
    &&& at_text(row, 3) is Some
}

impl Crew {
    /// Whether this record is what `row` holds, read for `user`.
    pub open spec fn decodes(&self, user: Seq<char>, row: Seq<Cell>) -> bool {
        &&& self.user@ == user
        &&& at_u64(row, 0) == Some(self.id)
        &&& at_text(row, 1) == Some(self.job@)
        &&& at_text(row, 2) == Some(self.name@)
        &&& at_text(row, 3) == Some(self.profile_path@)
    }

    /// Reads one result row.
    pub fn from_row(user: &String, row: &Vec<Cell>) -> (r: Result<Crew, Error>)
        ensures
            match r {
                Ok(x) => x.decodes(user@, row@),
                Err(e) => e.kind is Decode && !crew_row_ok(row@),
            },
    {
        let id = get_u64(row, 0, "crew")?;
        let job = get_text(row, 1, "crew")?;
        let name = get_text(row, 2, "crew")?;
        let profile_path = get_text(row, 3, "crew")?;
        Ok(Crew { user: user.clone(), id, job, name, profile_path })
    }

    /// Whether the records are, one for one, what the rows hold.
    pub open spec fn all_decode(v: Seq<Crew>, user: Seq<char>, rows: Seq<Seq<Cell>>) -> bool {
        &&& v.len() == rows.len()
        &&& forall|i: int| 0 <= i < v.len() ==> (#[trigger] v[i]).decodes(user, rows[i])
    }

    /// Reads every result row, in order; fails on the first row that does not decode.
    pub fn from_rows(user: &String, rows: &Vec<Vec<Cell>>) -> (r: Result<Vec<Crew>, Error>)
        ensures
            r matches Ok(v) ==> Crew::all_decode(v@, user@, row_views(rows@)),
            match r {
                Ok(v) => v@.len() == rows@.len() && forall|i: int|
                    0 <= i < rows@.len() ==> (#[trigger] v@[i]).decodes(user@, rows@[i]@),
                Err(e) => e.kind is Decode && exists|i: int|
                    0 <= i < rows@.len() && !crew_row_ok(#[trigger] rows@[i]@),
            },
    {
        let mut out: Vec<Crew> = Vec::new();
        let n = rows.len();
        let mut i: usize = 0;
        while i < n
            invariant
                n == rows@.len(),
                i <= n,
                out@.len() == i,
                forall|j: int| 0 <= j < i ==> (#[trigger] out@[j]).decodes(user@, rows@[j]@),
            decreases n - i,
        {
            let x = Crew::from_row(user, &rows[i])?;
            out.push(x);
            i = i + 1;
        }
        proof {
            assert forall|i: int| 0 <= i < out@.len() implies (#[trigger] out@[i]).decodes(
                user@, row_views(rows@)[i],
            ) by {
                assert(row_views(rows@)[i] == rows@[i]@);
            }
        }
        Ok(out)
    }

    /// Reads the first result row, if there is one.
    pub fn first_of(user: &String, rows: &Vec<Vec<Cell>>) -> (r: Result<Option<Crew>, Error>)
        ensures
            match r {
                Ok(Some(x)) => rows@.len() > 0 && x.decodes(user@, rows@[0]@),
                Ok(None) => rows@.len() == 0,
                Err(e) => e.kind is Decode && rows@.len() > 0 && !crew_row_ok(rows@[0]@),
            },
    {
        if rows.len() == 0 {
            return Ok(None);
        }
        let x = Crew::from_row(user, &rows[0])?;
        Ok(Some(x))
    }
}
/// A trailer hosted on YouTube.
#[derive(Debug)]
pub struct Trailer {
    pub name: String,
    pub youtube_id: String,
}

/// Whether every column that a trailer needs holds a value of the right type.
pub open spec fn trailer_row_ok(row: Seq<Cell>) -> bool {
    &&& at_text(row, 0) is Some
    &&& at_text(row, 1) is Some
}

impl Trailer {
    /// Whether this record is what `row` holds.
    pub open spec fn decodes(&self, row: Seq<Cell>) -> bool {
        &&& at_text(row, 0) == Some(self.name@)
        &&& at_text(row, 1) == Some(self.youtube_id@)
    }

    /// Reads one result row.
    pub fn from_row(row: &Vec<Cell>) -> (r: Result<Trailer, Error>)
        ensures
            match r {
                Ok(x) => x.decodes(row@),
                Err(e) => e.kind is Decode && !trailer_row_ok(row@),
            },
    {
        let name = get_text(row, 0, "trailer")?;
        let youtube_id = get_text(row, 1, "trailer")?;
        Ok(Trailer { name, youtube_id })
    }

    /// Whether the records are, one for one, what the rows hold.
    pub open spec fn all_decode(v: Seq<Trailer>, rows: Seq<Seq<Cell>>) -> bool {
        &&& v.len() == rows.len()
        &&& forall|i: int| 0 <= i < v.len() ==> (#[trigger] v[i]).decodes(rows[i])
    }

    /// Reads every result row, in order; fails on the first row that does not decode.
    pub fn from_rows(rows: &Vec<Vec<Cell>>) -> (r: Result<Vec<Trailer>, Error>)
        ensures
            r matches Ok(v) ==> Trailer::all_decode(v@, row_views(rows@)),
            match r {
                Ok(v) => v@.len() == rows@.len() && forall|i: int|
                    0 <= i < rows@.len() ==> (#[trigger] v@[i]).decodes(rows@[i]@),
                Err(e) => e.kind is Decode && exists|i: int|
                    0 <= i < rows@.len() && !trailer_row_ok(#[trigger] rows@[i]@),
            },
    {
        let mut out: Vec<Trailer> = Vec::new();
        let n = rows.len();
        let mut i: usize = 0;
        while i < n
            invariant
                n == rows@.len(),
                i <= n,
                out@.len() == i,
                forall|j: int| 0 <= j < i ==> (#[trigger] out@[j]).decodes(rows@[j]@),
            decreases n - i,
        {
            let x = Trailer::from_row(&rows[i])?;
            out.push(x);
            i = i + 1;
        }
        proof {
            assert forall|i: int| 0 <= i < out@.len() implies (#[trigger] out@[i]).decodes(
                row_views(rows@)[i],
            ) by {
                assert(row_views(rows@)[i] == rows@[i]@);
            }
        }
        Ok(out)
    }

    /// Reads the first result row, if there is one.
    pub fn first_of(rows: &Vec<Vec<Cell>>) -> (r: Result<Option<Trailer>, Error>)
        ensures
            match r {
                Ok(Some(x)) => rows@.len() > 0 && x.decodes(rows@[0]@),
                Ok(None) => rows@.len() == 0,
                Err(e) => e.kind is Decode && rows@.len() > 0 && !trailer_row_ok(rows@[0]@),
            },
    {
        if rows.len() == 0 {
            return Ok(None);
        }
        let x = Trailer::from_row(&rows[0])?;
        Ok(Some(x))
    }
}
/// A keyword attached to a title.
#[derive(Debug)]
pub struct Keyword {
    pub name: String,
    pub id: u64,
}

/// Whether every column that a keyword needs holds a value of the right type.
pub open spec fn keyword_row_ok(row: Seq<Cell>) -> bool {
    &&& at_text(row, 0) is Some
    &&& at_u64(row, 1) is Some
}

impl Keyword {
    /// Whether this record is what `row` holds.
    pub open spec fn decodes(&self, row: Seq<Cell>) -> bool {
        &&& at_text(row, 0) == Some(self.name@)
        &&& at_u64(row, 1) == Some(self.id)
    }

    /// Reads one result row.
    pub fn from_row(row: &Vec<Cell>) -> (r: Result<Keyword, Error>)
        ensures
            match r {
                Ok(x) => x.decodes(row@),
                Err(e) => e.kind is Decode && !keyword_row_ok(row@),
            },
    {
        let name = get_text(row, 0, "keyword")?;
        let id = get_u64(row, 1, "keyword")?;
        Ok(Keyword { name, id })
    }

    /// Whether the records are, one for one, what the rows hold.
    pub open spec fn all_decode(v: Seq<Keyword>, rows: Seq<Seq<Cell>>) -> bool {
        &&& v.len() == rows.len()
        &&& forall|i: int| 0 <= i < v.len() ==> (#[trigger] v[i]).decodes(rows[i])
    }

    /// Reads every result row, in order; fails on the first row that does not decode.
    pub fn from_rows(rows: &Vec<Vec<Cell>>) -> (r: Result<Vec<Keyword>, Error>)
        ensures
            r matches Ok(v) ==> Keyword::all_decode(v@, row_views(rows@)),
            match r {
                Ok(v) => v@.len() == rows@.len() && forall|i: int|
                    0 <= i < rows@.len() ==> (#[trigger] v@[i]).decodes(rows@[i]@),
                Err(e) => e.kind is Decode && exists|i: int|
                    0 <= i < rows@.len() && !keyword_row_ok(#[trigger] rows@[i]@),
            },
    {
        let mut out: Vec<Keyword> = Vec::new();
        let n = rows.len();
        let mut i: usize = 0;
        while i < n
            invariant
                n == rows@.len(),
                i <= n,
                out@.len() == i,
                forall|j: int| 0 <= j < i ==> (#[trigger] out@[j]).decodes(rows@[j]@),
            decreases n - i,
        {
            let x = Keyword::from_row(&rows[i])?;
            out.push(x);
            i = i + 1;
        }
        proof {
            assert forall|i: int| 0 <= i < out@.len() implies (#[trigger] out@[i]).decodes(
                row_views(rows@)[i],
            ) by {
                assert(row_views(rows@)[i] == rows@[i]@);
            }
        }
        Ok(out)
    }

    /// Reads the first result row, if there is one.
    pub fn first_of(rows: &Vec<Vec<Cell>>) -> (r: Result<Option<Keyword>, Error>)
        ensures
            match r {
                Ok(Some(x)) => rows@.len() > 0 && x.decodes(rows@[0]@),
                Ok(None) => rows@.len() == 0,
                Err(e) => e.kind is Decode && rows@.len() > 0 && !keyword_row_ok(rows@[0]@),
            },
    {
        if rows.len() == 0 {
            return Ok(None);
        }
        let x = Keyword::from_row(&rows[0])?;
        Ok(Some(x))
    }
}
/// A genre.
#[derive(Debug)]
pub struct Genre {
    pub name: String,
    pub id: u64,
}

/// Whether every column that a genre needs holds a value of the right type.
pub open spec fn genre_row_ok(row: Seq<Cell>) -> bool {
    &&& at_text(row, 0) is Some
    &&& at_u64(row, 1) is Some
}

impl Genre {
    /// Whether this record is what `row` holds.
    pub open spec fn decodes(&self, row: Seq<Cell>) -> bool {
        &&& at_text(row, 0) == Some(self.name@)
        &&& at_u64(row, 1) == Some(self.id)
    }

    /// Reads one result row.
    pub fn from_row(row: &Vec<Cell>) -> (r: Result<Genre, Error>)
        ensures
            match r {
                Ok(x) => x.decodes(row@),
                Err(e) => e.kind is Decode && !genre_row_ok(row@),
            },
    {
        let name = get_text(row, 0, "genre")?;
        let id = get_u64(row, 1, "genre")?;
        Ok(Genre { name, id })
    }

    /// Whether the records are, one for one, what the rows hold.
    pub open spec fn all_decode(v: Seq<Genre>, rows: Seq<Seq<Cell>>) -> bool {
        &&& v.len() == rows.len()
        &&& forall|i: int| 0 <= i < v.len() ==> (#[trigger] v[i]).decodes(rows[i])
    }

    /// Reads every result row, in order; fails on the first row that does not decode.
    pub fn from_rows(rows: &Vec<Vec<Cell>>) -> (r: Result<Vec<Genre>, Error>)
        ensures
            r matches Ok(v) ==> Genre::all_decode(v@, row_views(rows@)),
            match r {
                Ok(v) => v@.len() == rows@.len() && forall|i: int|
                    0 <= i < rows@.len() ==> (#[trigger] v@[i]).decodes(rows@[i]@),
                Err(e) => e.kind is Decode && exists|i: int|
                    0 <= i < rows@.len() && !genre_row_ok(#[trigger] rows@[i]@),
            },
    {
        let mut out: Vec<Genre> = Vec::new();
        let n = rows.len();
        let mut i: usize = 0;
        while i < n
            invariant
                n == rows@.len(),
                i <= n,
                out@.len() == i,
                forall|j: int| 0 <= j < i ==> (#[trigger] out@[j]).decodes(rows@[j]@),
            decreases n - i,
        {
            let x = Genre::from_row(&rows[i])?;
            out.push(x);
            i = i + 1;
        }
        proof {
            assert forall|i: int| 0 <= i < out@.len() implies (#[trigger] out@[i]).decodes(
                row_views(rows@)[i],
            ) by {
                assert(row_views(rows@)[i] == rows@[i]@);
            }
        }
        Ok(out)
    }

    /// Reads the first result row, if there is one.
    pub fn first_of(rows: &Vec<Vec<Cell>>) -> (r: Result<Option<Genre>, Error>)
        ensures
            match r {
                Ok(Some(x)) => rows@.len() > 0 && x.decodes(rows@[0]@),
                Ok(None) => rows@.len() == 0,
                Err(e) => e.kind is Decode && rows@.len() > 0 && !genre_row_ok(rows@[0]@),
            },
    {
        if rows.len() == 0 {
            return Ok(None);
        }
        let x = Genre::from_row(&rows[0])?;
        Ok(Some(x))
    }
}
} // verus!
