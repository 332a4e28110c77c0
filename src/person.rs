use vstd::prelude::*;

use crate::error::Error;
use crate::query::{generate_sql, params1, statement_views, Filter, SqlQuery};
use crate::row::{at_number, at_text, at_u64, get_number, get_text, get_u64, row_views};
use crate::store::{Cell, SqlLibrary};
use crate::text::{decimal_string, texts};
use crate::upsert::{
    dec, delete_where, opt_paths, or_empty, push_delete, push_path, replace_into, replace_into_sql,
    text_or_empty,
};

verus! {

/// A person credited in the library.
#[derive(Debug)]
pub struct Person {
    /// The user whose watch marks the record carries.
    pub user: String,
    pub id: u64,
    pub birthday: String,
    pub known_for_department: String,
    pub deathday: String,
    pub name: String,
    pub gender: u64,
    pub biography: String,
    /// Decimal text.
    pub popularity: String,
    pub place_of_birth: String,
    pub profile_path: String,
}

/// Whether every column that a person needs holds a value of the right type.
pub open spec fn person_row_ok(row: Seq<Cell>) -> bool {
    &&& at_u64(row, 0) is Some
    &&& at_text(row, 1) is Some
    &&& at_text(row, 2) is Some
    &&& at_text(row, 3) is Some
    &&& at_text(row, 4) is Some
    &&& at_u64(row, 5) is Some
    &&& at_text(row, 6) is Some
    &&& at_number(row, 7) is Some
    &&& at_text(row, 8) is Some
    &&& at_text(row, 9) is Some
}

impl Person {
    /// Whether this record is what `row` holds, read for `user`.
    pub open spec fn decodes(&self, user: Seq<char>, row: Seq<Cell>) -> bool {
        &&& self.user@ == user
        &&& at_u64(row, 0) == Some(self.id)
        &&& at_text(row, 1) == Some(self.birthday@)
        &&& at_text(row, 2) == Some(self.known_for_department@)
        &&& at_text(row, 3) == Some(self.deathday@)
        &&& at_text(row, 4) == Some(self.name@)
        &&& at_u64(row, 5) == Some(self.gender)
        &&& at_text(row, 6) == Some(self.biography@)
        &&& at_number(row, 7) == Some(self.popularity@)
        &&& at_text(row, 8) == Some(self.place_of_birth@)
        &&& at_text(row, 9) == Some(self.profile_path@)
    }

    /// Reads one result row.
    pub fn from_row(user: &String, row: &Vec<Cell>) -> (r: Result<Person, Error>)
        ensures
            match r {
                Ok(x) => x.decodes(user@, row@),
                Err(e) => e.kind is Decode && !person_row_ok(row@),
            },
    {
        let id = get_u64(row, 0, "get_person")?;
        let birthday = get_text(row, 1, "get_person")?;
        let known_for_department = get_text(row, 2, "get_person")?;
        let deathday = get_text(row, 3, "get_person")?;
        let name = get_text(row, 4, "get_person")?;
        let gender = get_u64(row, 5, "get_person")?;
        let biography = get_text(row, 6, "get_person")?;
        let popularity = get_number(row, 7, "get_person")?;
        let place_of_birth = get_text(row, 8, "get_person")?;
        let profile_path = get_text(row, 9, "get_person")?;
        Ok(Person { user: user.clone(), id, birthday, known_for_department, deathday, name, gender, biography, popularity, place_of_birth, profile_path })
    }

    /// Whether the records are, one for one, what the rows hold.
    pub open spec fn all_decode(v: Seq<Person>, user: Seq<char>, rows: Seq<Seq<Cell>>) -> bool {
        &&& v.len() == rows.len()
        &&& forall|i: int| 0 <= i < v.len() ==> (#[trigger] v[i]).decodes(user, rows[i])
    }

    /// Reads every result row, in order; fails on the first row that does not decode.
    pub fn from_rows(user: &String, rows: &Vec<Vec<Cell>>) -> (r: Result<Vec<Person>, Error>)
        ensures
            r matches Ok(v) ==> Person::all_decode(v@, user@, row_views(rows@)),
            match r {
                Ok(v) => v@.len() == rows@.len() && forall|i: int|
                    0 <= i < rows@.len() ==> (#[trigger] v@[i]).decodes(user@, rows@[i]@),
                Err(e) => e.kind is Decode && exists|i: int|
                    0 <= i < rows@.len() && !person_row_ok(#[trigger] rows@[i]@),
            },
    {
        let mut out: Vec<Person> = Vec::new();
        let n = rows.len();
        let mut i: usize = 0;
        while i < n
            invariant
                n == rows@.len(),
                i <= n,
                out@.len() == i,
                forall|j: int| 0 <= j < i ==> (#[trigger] out@[j]).decodes(user@, rows@[j]@),
            decreases n - i,
        {
            let x = Person::from_row(user, &rows[i])?;
            out.push(x);
            i = i + 1;
        }
        proof {
            assert forall|i: int| 0 <= i < out@.len() implies (#[trigger] out@[i]).decodes(
                user@, row_views(rows@)[i],
            ) by {
                assert(row_views(rows@)[i] == rows@[i]@);
            }
        }
        Ok(out)
    }

    /// Reads the first result row, if there is one.
    pub fn first_of(user: &String, rows: &Vec<Vec<Cell>>) -> (r: Result<Option<Person>, Error>)
        ensures
            match r {
                Ok(Some(x)) => rows@.len() > 0 && x.decodes(user@, rows@[0]@),
                Ok(None) => rows@.len() == 0,
                Err(e) => e.kind is Decode && rows@.len() > 0 && !person_row_ok(rows@[0]@),
            },
    {
        if rows.len() == 0 {
            return Ok(None);
        }
        let x = Person::from_row(user, &rows[0])?;
        Ok(Some(x))
    }
}
/// The summary of a person that searches return.
#[derive(Debug)]
pub struct PersonResult {
    /// The user whose watch marks the record carries.
    pub user: String,
    pub id: u64,
    pub name: String,
    pub birthday: String,
    pub profile_path: String,
}

/// Whether every column that a person result needs holds a value of the right type.
pub open spec fn person_result_row_ok(row: Seq<Cell>) -> bool {
    &&& at_u64(row, 0) is Some
    &&& at_text(row, 1) is Some
    &&& at_text(row, 2) is Some
    &&& at_text(row, 3) is Some
}

impl PersonResult {
    /// Whether this record is what `row` holds, read for `user`.
    pub open spec fn decodes(&self, user: Seq<char>, row: Seq<Cell>) -> bool {
        &&& self.user@ == user
        &&& at_u64(row, 0) == Some(self.id)
        &&& at_text(row, 1) == Some(self.name@)
        &&& at_text(row, 2) == Some(self.birthday@)
        &&& at_text(row, 3) == Some(self.profile_path@)
    }

    /// Reads one result row.
    pub fn from_row(user: &String, row: &Vec<Cell>) -> (r: Result<PersonResult, Error>)
        ensures
            match r {
                Ok(x) => x.decodes(user@, row@),
                Err(e) => e.kind is Decode && !person_result_row_ok(row@),
            },
    {
        let id = get_u64(row, 0, "get_persons")?;
        let name = get_text(row, 1, "get_persons")?;
        let birthday = get_text(row, 2, "get_persons")?;
        let profile_path = get_text(row, 3, "get_persons")?;
        Ok(PersonResult { user: user.clone(), id, name, birthday, profile_path })
    }

    /// Whether the records are, one for one, what the rows hold.
    pub open spec fn all_decode(v: Seq<PersonResult>, user: Seq<char>, rows: Seq<Seq<Cell>>) -> bool {
        &&& v.len() == rows.len()
        &&& forall|i: int| 0 <= i < v.len() ==> (#[trigger] v[i]).decodes(user, rows[i])
    }

    /// Reads every result row, in order; fails on the first row that does not decode.
    pub fn from_rows(user: &String, rows: &Vec<Vec<Cell>>) -> (r: Result<Vec<PersonResult>, Error>)
        ensures
            r matches Ok(v) ==> PersonResult::all_decode(v@, user@, row_views(rows@)),
            match r {
                Ok(v) => v@.len() == rows@.len() && forall|i: int|
                    0 <= i < rows@.len() ==> (#[trigger] v@[i]).decodes(user@, rows@[i]@),
                Err(e) => e.kind is Decode && exists|i: int|
                    0 <= i < rows@.len() && !person_result_row_ok(#[trigger] rows@[i]@),
            },
    {
        let mut out: Vec<PersonResult> = Vec::new();
        let n = rows.len();
        let mut i: usize = 0;
        while i < n
            invariant
                n == rows@.len(),
                i <= n,
                out@.len() == i,
                forall|j: int| 0 <= j < i ==> (#[trigger] out@[j]).decodes(user@, rows@[j]@),
            decreases n - i,
        {
            let x = PersonResult::from_row(user, &rows[i])?;
            out.push(x);
            i = i + 1;
        }
        proof {
            assert forall|i: int| 0 <= i < out@.len() implies (#[trigger] out@[i]).decodes(
                user@, row_views(rows@)[i],
            ) by {
                assert(row_views(rows@)[i] == rows@[i]@);
            }
        }
        Ok(out)
    }

    /// Reads the first result row, if there is one.
    pub fn first_of(user: &String, rows: &Vec<Vec<Cell>>) -> (r: Result<Option<PersonResult>, Error>)
        ensures
            match r {
                Ok(Some(x)) => rows@.len() > 0 && x.decodes(user@, rows@[0]@),
                Ok(None) => rows@.len() == 0,
                Err(e) => e.kind is Decode && rows@.len() > 0 && !person_result_row_ok(rows@[0]@),
            },
    {
        if rows.len() == 0 {
            return Ok(None);
        }
        let x = PersonResult::from_row(user, &rows[0])?;
        Ok(Some(x))
    }
}
pub const PERSON_ROW: &'static str = "Persons (id, birthday, known_for_department, deathday, name, gender, biography, popularity, place_of_birth, profile_path) values (?1, ?2, ?3, ?4, ?5, ?6, ?7, ?8, ?9, ?10)";

pub const PERSON_BY_ID: &'static str = "SELECT id, birthday, known_for_department, deathday, name, gender, biography, popularity, place_of_birth, profile_path FROM Persons WHERE Persons.id = ?1 GROUP BY Persons.id";

pub const PERSONS_HEAD: &'static str = "SELECT id, name, birthday, profile_path FROM Persons";

/// The values of a person's row, in column order.
pub open spec fn person_row_params(p: crate::metadata::Person) -> Seq<Seq<char>> {
    seq![
        dec(p.id),
        or_empty(p.birthday),
        or_empty(p.known_for_department),
        or_empty(p.deathday),
        p.name@,
        dec(p.gender as u64),
        p.biography@,
        p.popularity@,
        or_empty(p.place_of_birth),
        or_empty(p.profile_path),
    ]
}

pub fn person_row_values(p: &crate::metadata::Person) -> (r: Vec<String>)
    ensures
        texts(r@) == person_row_params(*p),
{
    let mut v: Vec<String> = Vec::new();
    v.push(decimal_string(p.id));
    v.push(text_or_empty(&p.birthday));
    v.push(text_or_empty(&p.known_for_department));
    v.push(text_or_empty(&p.deathday));
    v.push(p.name.clone());
    v.push(decimal_string(p.gender as u64));
    v.push(p.biography.clone());
    v.push(p.popularity.clone());
    v.push(text_or_empty(&p.place_of_birth));
    v.push(text_or_empty(&p.profile_path));
    proof {
        assert(texts(v@) =~= person_row_params(*p));
    }
    v
}

impl SqlLibrary {
    /// Stores a person, replacing the row under the same id. Hands back no
    /// further people and the profile image path, if any.
    pub fn create_person(&mut self, person: &crate::metadata::Person) -> (r: Result<(Vec<u64>, Vec<String>), Error>)
        ensures
            match r {
                Ok((ids, paths)) => ids@.len() == 0 && texts(paths@) == opt_paths(person.profile_path)
                    && final(self).history() == old(self).history().push(
                    (replace_into(PERSON_ROW@), person_row_params(*person)),
                ),
                Err(e) => e.kind is TransactionFailure && e.location@ == "create_person"@ && final(self).history() == old(self).history(),
            },
    {
        let mut statements: Vec<SqlQuery> = Vec::new();
        crate::query::push_statement(&mut statements, replace_into_sql(PERSON_ROW), person_row_values(person));
        proof {
            assert(statement_views(statements@) =~= seq![(replace_into(PERSON_ROW@), person_row_params(*person))]);
        }
        self.transaction(&statements, "create_person")?;
        let ids: Vec<u64> = Vec::new();
        let mut paths: Vec<String> = Vec::new();
        proof {
            assert(texts(paths@) =~= Seq::<Seq<char>>::empty());
        }
        push_path(&mut paths, &person.profile_path);
        proof {
            assert(texts(paths@) =~= opt_paths(person.profile_path));
        }
        Ok((ids, paths))
    }

    pub fn get_person(&self, user: &String, person_id: u64) -> (r: Result<Option<Person>, Error>)
        ensures
            r matches Ok(Some(p)) ==> p.user@ == user@,
            r matches Ok(Some(x)) ==> exists|row: Seq<Cell>| #[trigger] x.decodes(user@, row),
    {
        let rows = self.query(PERSON_BY_ID, &params1(decimal_string(person_id)), "get_person")?;
        Person::first_of(user, &rows)
    }

    pub fn get_persons(
        &self,
        user: &String,
        filters: &Vec<Filter>,
        order_by: &Option<String>,
        limit: Option<u64>,
        offset: Option<u64>,
    ) -> (r: Result<Vec<PersonResult>, Error>)
        ensures
            r matches Ok(v) ==> forall|i: int| 0 <= i < v@.len() ==> (#[trigger] v@[i]).user@ == user@,
            r matches Ok(v) ==> exists|rows: Seq<Seq<Cell>>| #[trigger] PersonResult::all_decode(v@, user@, rows),
    {
        let q = generate_sql(PERSONS_HEAD, filters, None, Some("Persons.id"), order_by, limit, offset);
        let rows = self.query(q.sql.as_str(), &q.params, "get_persons")?;
        PersonResult::from_rows(user, &rows)
    }

    pub fn delete_person(&mut self, person_id: u64) -> (r: Result<(), Error>)
        ensures
            match r {
                Ok(()) => final(self).history() == old(self).history().push(
                    (delete_where("Persons"@, "id"@), seq![dec(person_id)]),
                ),
                Err(e) => e.kind is TransactionFailure && e.location@ == "delete_person"@ && final(self).history() == old(self).history(),
            },
    {
        let mut statements: Vec<SqlQuery> = Vec::new();
        push_delete(&mut statements, "Persons", "id", person_id);
        proof {
            assert(statement_views(statements@) =~= seq![(delete_where("Persons"@, "id"@), seq![dec(person_id)])]);
        }
        self.transaction(&statements, "delete_person")
    }
}

} // verus!
