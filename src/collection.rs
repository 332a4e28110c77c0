use vstd::prelude::*;

use crate::error::{Error, ErrorKind};
use crate::query::{generate_sql, params1, params2, statement_views, Filter, SqlQuery};
use crate::row::{at_text, at_u64, get_text, get_u64, row_views};
use crate::store::{Cell, SqlLibrary};
use crate::text::{decimal_string, texts};
use crate::upsert::{dec, delete_where, push_delete, replace_into, replace_into_sql};

verus! {

/// A named grouping of movies and shows that a user made; name and creator together are unique.
#[derive(Debug)]
pub struct Collection {
    /// The user whose watch marks the record carries.
    pub user: String,
    pub id: u64,
    pub name: String,
    pub description: String,
    pub creator: String,
    pub creation_date: String,
    /// Empty until set or inherited from the first member added.
    pub poster_path: String,
}

/// Whether every column that a collection needs holds a value of the right type.
pub open spec fn collection_row_ok(row: Seq<Cell>) -> bool {
    &&& at_u64(row, 0) is Some
    &&& at_text(row, 1) is Some
    &&& at_text(row, 2) is Some
    &&& at_text(row, 3) is Some
    &&& at_text(row, 4) is Some
    &&& at_text(row, 5) is Some
}

impl Collection {
    /// Whether this record is what `row` holds, read for `user`.
    pub open spec fn decodes(&self, user: Seq<char>, row: Seq<Cell>) -> bool {
        &&& self.user@ == user
        &&& at_u64(row, 0) == Some(self.id)
        &&& at_text(row, 1) == Some(self.name@)
        &&& at_text(row, 2) == Some(self.description@)
        &&& at_text(row, 3) == Some(self.creator@)
        &&& at_text(row, 4) == Some(self.creation_date@)
        &&& at_text(row, 5) == Some(self.poster_path@)
    }

    /// Reads one result row.
    pub fn from_row(user: &String, row: &Vec<Cell>) -> (r: Result<Collection, Error>)
        ensures
            match r {
                Ok(x) => x.decodes(user@, row@),
                Err(e) => e.kind is Decode && !collection_row_ok(row@),
            },
    {
        let id = get_u64(row, 0, "get_collection")?;
        let name = get_text(row, 1, "get_collection")?;
        let description = get_text(row, 2, "get_collection")?;
        let creator = get_text(row, 3, "get_collection")?;
        let creation_date = get_text(row, 4, "get_collection")?;
        let poster_path = get_text(row, 5, "get_collection")?;
        Ok(Collection { user: user.clone(), id, name, description, creator, creation_date, poster_path })
    }

    /// Whether the records are, one for one, what the rows hold.
    pub open spec fn all_decode(v: Seq<Collection>, user: Seq<char>, rows: Seq<Seq<Cell>>) -> bool {
        &&& v.len() == rows.len()
        &&& forall|i: int| 0 <= i < v.len() ==> (#[trigger] v[i]).decodes(user, rows[i])
    }

    /// Reads every result row, in order; fails on the first row that does not decode.
    pub fn from_rows(user: &String, rows: &Vec<Vec<Cell>>) -> (r: Result<Vec<Collection>, Error>)
        ensures
            r matches Ok(v) ==> Collection::all_decode(v@, user@, row_views(rows@)),
            match r {
                Ok(v) => v@.len() == rows@.len() && forall|i: int|
                    0 <= i < rows@.len() ==> (#[trigger] v@[i]).decodes(user@, rows@[i]@),
                Err(e) => e.kind is Decode && exists|i: int|
                    0 <= i < rows@.len() && !collection_row_ok(#[trigger] rows@[i]@),
            },
    {
        let mut out: Vec<Collection> = Vec::new();
        let n = rows.len();
        let mut i: usize = 0;
        while i < n
            invariant
                n == rows@.len(),
                i <= n,
                out@.len() == i,
                forall|j: int| 0 <= j < i ==> (#[trigger] out@[j]).decodes(user@, rows@[j]@),
            decreases n - i,
        {
            let x = Collection::from_row(user, &rows[i])?;
            out.push(x);
            i = i + 1;
        }
        proof {
            assert forall|i: int| 0 <= i < out@.len() implies (#[trigger] out@[i]).decodes(
                user@, row_views(rows@)[i],
            ) by {
                assert(row_views(rows@)[i] == rows@[i]@);
            }
        }
        Ok(out)
    }

    /// Reads the first result row, if there is one.
    pub fn first_of(user: &String, rows: &Vec<Vec<Cell>>) -> (r: Result<Option<Collection>, Error>)
        ensures
            match r {
                Ok(Some(x)) => rows@.len() > 0 && x.decodes(user@, rows@[0]@),
                Ok(None) => rows@.len() == 0,
                Err(e) => e.kind is Decode && rows@.len() > 0 && !collection_row_ok(rows@[0]@),
            },
    {
        if rows.len() == 0 {
            return Ok(None);
        }
        let x = Collection::from_row(user, &rows[0])?;
        Ok(Some(x))
    }
}
/// The summary of a collection that searches return.
#[derive(Debug)]
pub struct CollectionResult {
    /// The user whose watch marks the record carries.
    pub user: String,
    pub id: u64,
    pub name: String,
    pub creator: String,
    pub creation_date: String,
    pub poster_path: String,
}

/// Whether every column that a collection result needs holds a value of the right type.
pub open spec fn collection_result_row_ok(row: Seq<Cell>) -> bool {
    &&& at_u64(row, 0) is Some
    &&& at_text(row, 1) is Some
    &&& at_text(row, 2) is Some
    &&& at_text(row, 3) is Some
    &&& at_text(row, 4) is Some
}

impl CollectionResult {
    /// Whether this record is what `row` holds, read for `user`.
    pub open spec fn decodes(&self, user: Seq<char>, row: Seq<Cell>) -> bool {
        &&& self.user@ == user
        &&& at_u64(row, 0) == Some(self.id)
        &&& at_text(row, 1) == Some(self.name@)
        &&& at_text(row, 2) == Some(self.creator@)
        &&& at_text(row, 3) == Some(self.creation_date@)
        &&& at_text(row, 4) == Some(self.poster_path@)
    }

    /// Reads one result row.
    pub fn from_row(user: &String, row: &Vec<Cell>) -> (r: Result<CollectionResult, Error>)
        ensures
            match r {
                Ok(x) => x.decodes(user@, row@),
                Err(e) => e.kind is Decode && !collection_result_row_ok(row@),
            },
    {
        let id = get_u64(row, 0, "get_collections")?;
        let name = get_text(row, 1, "get_collections")?;
        let creator = get_text(row, 2, "get_collections")?;
        let creation_date = get_text(row, 3, "get_collections")?;
        let poster_path = get_text(row, 4, "get_collections")?;
        Ok(CollectionResult { user: user.clone(), id, name, creator, creation_date, poster_path })
    }

    /// Whether the records are, one for one, what the rows hold.
    pub open spec fn all_decode(v: Seq<CollectionResult>, user: Seq<char>, rows: Seq<Seq<Cell>>) -> bool {
        &&& v.len() == rows.len()
        &&& forall|i: int| 0 <= i < v.len() ==> (#[trigger] v[i]).decodes(user, rows[i])
    }

    /// Reads every result row, in order; fails on the first row that does not decode.
    pub fn from_rows(user: &String, rows: &Vec<Vec<Cell>>) -> (r: Result<Vec<CollectionResult>, Error>)
        ensures
            r matches Ok(v) ==> CollectionResult::all_decode(v@, user@, row_views(rows@)),
            match r {
                Ok(v) => v@.len() == rows@.len() && forall|i: int|
                    0 <= i < rows@.len() ==> (#[trigger] v@[i]).decodes(user@, rows@[i]@),
                Err(e) => e.kind is Decode && exists|i: int|
                    0 <= i < rows@.len() && !collection_result_row_ok(#[trigger] rows@[i]@),
            },
    {
        let mut out: Vec<CollectionResult> = Vec::new();
        let n = rows.len();
        let mut i: usize = 0;
        while i < n
            invariant
                n == rows@.len(),
                i <= n,
                out@.len() == i,
                forall|j: int| 0 <= j < i ==> (#[trigger] out@[j]).decodes(user@, rows@[j]@),
            decreases n - i,
        {
            let x = CollectionResult::from_row(user, &rows[i])?;
            out.push(x);
            i = i + 1;
        }
        proof {
            assert forall|i: int| 0 <= i < out@.len() implies (#[trigger] out@[i]).decodes(
                user@, row_views(rows@)[i],
            ) by {
                assert(row_views(rows@)[i] == rows@[i]@);
            }
        }
        Ok(out)
    }

    /// Reads the first result row, if there is one.
    pub fn first_of(user: &String, rows: &Vec<Vec<Cell>>) -> (r: Result<Option<CollectionResult>, Error>)
        ensures
            match r {
                Ok(Some(x)) => rows@.len() > 0 && x.decodes(user@, rows@[0]@),
                Ok(None) => rows@.len() == 0,
                Err(e) => e.kind is Decode && rows@.len() > 0 && !collection_result_row_ok(rows@[0]@),
            },
    {
        if rows.len() == 0 {
            return Ok(None);
        }
        let x = CollectionResult::from_row(user, &rows[0])?;
        Ok(Some(x))
    }
}
pub const COLLECTION_NEW: &'static str = "INSERT INTO Collections (name, description, creator, creation_date, poster_path) values (?1, '', ?2, datetime('now'), '')";

pub const COLLECTION_ROW: &'static str = "Collections (id, name, description, creator, creation_date, poster_path) values (?1, ?2, ?3, ?4, ?5, ?6)";

pub const COLLECTION_MOVIE: &'static str = "INSERT INTO MovieCollectionLinks (movie_id, collection_id) values (?1, ?2)";

pub const COLLECTION_TV: &'static str = "INSERT INTO TvCollectionLinks (tv_id, collection_id) values (?1, ?2)";

pub const COLLECTION_BY_ID: &'static str = "SELECT id, name, description, creator, creation_date, poster_path FROM Collections WHERE id= ?1";

pub const COLLECTIONS_HEAD: &'static str = "SELECT Collections.id, Collections.name, Collections.creator, Collections.creation_date, Collections.poster_path FROM Collections LEFT OUTER JOIN MovieCollectionLinks ON Collections.id = MovieCollectionLinks.collection_id LEFT OUTER JOIN TvCollectionLinks ON Collections.id = TvCollectionLinks.collection_id";

/// The poster a collection keeps when a member with poster `candidate` is
/// added: its own when it has one, else the member's.
pub open spec fn inherited_poster(current: Seq<char>, candidate: Seq<char>) -> Seq<char> {
    if current.len() == 0 {
        candidate
    } else {
        current
    }
}

/// Picks the poster a collection keeps when a member is added.
pub fn inherit_poster(current: &String, candidate: &String) -> (r: String)
    ensures
        r@ == inherited_poster(current@, candidate@),
{
    if current.as_str().unicode_len() == 0 {
        candidate.clone()
    } else {
        current.clone()
    }
}

/// A collection with no poster takes the poster of the first member added,
/// when that member has one; a later member leaves it as it is.
pub proof fn lemma_poster_inherited_once(first: Seq<char>, second: Seq<char>)
    requires
        first.len() > 0,
    ensures
        inherited_poster(Seq::empty(), first) == first,
        inherited_poster(inherited_poster(Seq::empty(), first), second) == first,
{
}

fn not_found(location: &str) -> (r: Error)
    ensures
        r.kind is NotFound,
        r.location@ == location@,
{
    Error::new(ErrorKind::NotFound, String::from_str("no such row"), location)
}

impl Collection {
    /// Adds a poster candidate: kept only when the collection has none yet.
    pub fn offer_poster(&mut self, candidate: &String)
        ensures
            final(self).poster_path@ == inherited_poster(old(self).poster_path@, candidate@),
            final(self).id == old(self).id,
            final(self).name == old(self).name,
            final(self).description == old(self).description,
            final(self).creator == old(self).creator,
    {
        self.poster_path = inherit_poster(&self.poster_path, candidate);
    }

    pub fn edit_description(&mut self, description: String)
        ensures
            final(self).description == description,
            final(self).poster_path == old(self).poster_path,
            final(self).id == old(self).id,
    {
        self.description = description;
    }

    pub fn edit_poster_path(&mut self, poster_path: String)
        ensures
            final(self).poster_path == poster_path,
            final(self).description == old(self).description,
            final(self).id == old(self).id,
    {
        self.poster_path = poster_path;
    }
}

impl SqlLibrary {
    /// Creates an empty collection named `name` for `user`; a second one with
    /// the same name and creator is refused.
    pub fn create_collection(&mut self, user: &String, name: String) -> (r: Result<Collection, Error>)
        ensures
            r matches Ok(c) ==> c.user@ == user@,
            r is Ok ==> final(self).history() == old(self).history().push(
                (COLLECTION_NEW@, seq![name@, user@]),
            ),
    {
        let params = params2(name, user.clone());
        self.execute(COLLECTION_NEW, &params, "create_collection")?;
        let rowid = self.last_insert_id();
        if rowid < 0 {
            return Err(not_found("create_collection"));
        }
        match self.get_collection(user, rowid as u64)? {
            Some(c) => Ok(c),
            None => Err(not_found("create_collection")),
        }
    }

    /// Stores the collection's fields over the row with its id.
    pub fn update_collection(&mut self, user: &String, collection: &Collection) -> (r: Result<Collection, Error>)
        ensures
            r matches Ok(c) ==> c.user@ == user@,
            r is Ok ==> final(self).history() == old(self).history().push(
                (
                    replace_into(COLLECTION_ROW@),
                    seq![
                        dec(collection.id),
                        collection.name@,
                        collection.description@,
                        collection.creator@,
                        collection.creation_date@,
                        collection.poster_path@,
                    ],
                ),
            ),
    {
        let sql = replace_into_sql(COLLECTION_ROW);
        let mut params: Vec<String> = Vec::new();
        params.push(decimal_string(collection.id));
        params.push(collection.name.clone());
        params.push(collection.description.clone());
        params.push(collection.creator.clone());
        params.push(collection.creation_date.clone());
        params.push(collection.poster_path.clone());
        proof {
            assert(texts(params@) =~= seq![
                dec(collection.id),
                collection.name@,
                collection.description@,
                collection.creator@,
                collection.creation_date@,
                collection.poster_path@,
            ]);
        }
        self.execute(sql.as_str(), &params, "update_collection")?;
        match self.get_collection(user, collection.id)? {
            Some(c) => Ok(c),
            None => Err(not_found("update_collection")),
        }
    }

    pub fn add_movie_collection(&mut self, collection_id: u64, movie_id: u64) -> (r: Result<(), Error>)
        ensures
            match r {
                Ok(()) => final(self).history() == old(self).history().push(
                    (COLLECTION_MOVIE@, seq![dec(movie_id), dec(collection_id)]),
                ),
                Err(e) => e.location@ == "add_movie_collection"@ && final(self).history() == old(self).history(),
            },
    {
        let params = params2(decimal_string(movie_id), decimal_string(collection_id));
        self.execute(COLLECTION_MOVIE, &params, "add_movie_collection")?;
        Ok(())
    }

    pub fn add_tv_collection(&mut self, collection_id: u64, tv_id: u64) -> (r: Result<(), Error>)
        ensures
            match r {
                Ok(()) => final(self).history() == old(self).history().push(
                    (COLLECTION_TV@, seq![dec(tv_id), dec(collection_id)]),
                ),
                Err(e) => e.location@ == "add_tv_collection"@ && final(self).history() == old(self).history(),
            },
    {
        let params = params2(decimal_string(tv_id), decimal_string(collection_id));
        self.execute(COLLECTION_TV, &params, "add_tv_collection")?;
        Ok(())
    }

    pub fn get_collection(&self, user: &String, collection_id: u64) -> (r: Result<Option<Collection>, Error>)
        ensures
            r matches Ok(Some(c)) ==> c.user@ == user@,
            r matches Ok(Some(x)) ==> exists|row: Seq<Cell>| #[trigger] x.decodes(user@, row),
    {
        let rows = self.query(COLLECTION_BY_ID, &params1(decimal_string(collection_id)), "get_collection")?;
        Collection::first_of(user, &rows)
    }

    pub fn get_collections(
        &self,
        user: &String,
        filters: &Vec<Filter>,
        order_by: &Option<String>,
        limit: Option<u64>,
        offset: Option<u64>,
    ) -> (r: Result<Vec<CollectionResult>, Error>)
        ensures
            r matches Ok(v) ==> forall|i: int| 0 <= i < v@.len() ==> (#[trigger] v@[i]).user@ == user@,
            r matches Ok(v) ==> exists|rows: Seq<Seq<Cell>>| #[trigger] CollectionResult::all_decode(v@, user@, rows),
    {
        let q = generate_sql(COLLECTIONS_HEAD, filters, None, Some("Collections.id"), order_by, limit, offset);
        let rows = self.query(q.sql.as_str(), &q.params, "get_collections")?;
        CollectionResult::from_rows(user, &rows)
    }

    pub fn delete_collection(&mut self, collection_id: u64) -> (r: Result<(), Error>)
        ensures
            match r {
                Ok(()) => final(self).history() == old(self).history().push(
                    (delete_where("Collections"@, "id"@), seq![dec(collection_id)]),
                ),
                Err(e) => e.kind is TransactionFailure && e.location@ == "delete_collection"@ && final(self).history() == old(self).history(),
            },
    {
        let mut statements: Vec<SqlQuery> = Vec::new();
        push_delete(&mut statements, "Collections", "id", collection_id);
        proof {
            assert(statement_views(statements@) =~= seq![(delete_where("Collections"@, "id"@), seq![dec(collection_id)])]);
        }
        self.transaction(&statements, "delete_collection")
    }
}

} // verus!
