use vstd::prelude::*;

use crate::metadata::{Cast, CreatedBy, Crew, Genre, Keyword, Video};
use crate::query::{
    params1, params2, params3, params4, push_statement, statement_views, SqlQuery, StatementView,
};
use crate::text::{decimal, decimal_string, texts};

verus! {

/// The keyword table, shared by movies and shows.
pub const KEYWORD: &'static str = "Keywords (id, name) values (?1, ?2)";

pub open spec fn dec(n: u64) -> Seq<char> {
    decimal(n as nat)
}

/// An optional text, with the empty text standing for an absent one.
pub open spec fn or_empty(o: Option<String>) -> Seq<char> {
    match o {
        Some(s) => s@,
        None => Seq::empty(),
    }
}

pub open spec fn bool_text(b: bool) -> Seq<char> {
    if b {
        "true"@
    } else {
        "false"@
    }
}

/// An insert that replaces the row holding the same unique key.
pub open spec fn replace_into(rest: Seq<char>) -> Seq<char> {
    "INSERT OR REPLACE INTO "@ + rest
}

/// An insert that keeps the row already holding the same unique key.
pub open spec fn ignore_into(rest: Seq<char>) -> Seq<char> {
    "INSERT OR IGNORE INTO "@ + rest
}

/// Whether a statement inserts a row or, on a clash of unique keys, replaces
/// or keeps the existing one: running it twice leaves one row per key.
pub open spec fn is_upsert_sql(sql: Seq<char>) -> bool {
    exists|rest: Seq<char>| sql == replace_into(rest) || sql == ignore_into(rest)
}

pub open spec fn all_upserts(stmts: Seq<StatementView>) -> bool {
    forall|i: int| 0 <= i < stmts.len() ==> is_upsert_sql(#[trigger] stmts[i].0)
}

pub fn replace_into_sql(rest: &str) -> (r: String)
    ensures
        r@ == replace_into(rest@),
{
    let mut s = String::from_str("INSERT OR REPLACE INTO ");
    s.append(rest);
    s
}

pub fn ignore_into_sql(rest: &str) -> (r: String)
    ensures
        r@ == ignore_into(rest@),
{
    let mut s = String::from_str("INSERT OR IGNORE INTO ");
    s.append(rest);
    s
}

pub fn text_or_empty(o: &Option<String>) -> (r: String)
    ensures
        r@ == or_empty(*o),
{
    match o {
        Some(s) => s.clone(),
        None => String::new(),
    }
}

pub fn bool_string(b: bool) -> (r: String)
    ensures
        r@ == bool_text(b),
{
    if b {
        String::from_str("true")
    } else {
        String::from_str("false")
    }
}

/// Whether `s` is exactly `lit`.
pub fn text_is(s: &String, lit: &str) -> (r: bool)
    ensures
        r == (s@ == lit@),
{
    let l = String::from_str(lit);
    *s == l
}

/// An optional asset path as a list of zero or one path.
pub open spec fn opt_paths(o: Option<String>) -> Seq<Seq<char>> {
    match o {
        Some(s) => seq![s@],
        None => Seq::empty(),
    }
}

pub fn push_path(paths: &mut Vec<String>, o: &Option<String>)
    ensures
        texts(final(paths)@) == texts(old(paths)@) + opt_paths(*o),
{
    let ghost before = paths@;
    match o {
        Some(s) => {
            paths.push(s.clone());
            proof {
                assert(texts(paths@) =~= texts(before) + opt_paths(*o));
            }
        },
        None => {
            proof {
                assert(texts(paths@) =~= texts(before) + opt_paths(*o));
            }
        },
    }
}

/// A statement that deletes the rows of `table` whose `column` is `?1`.
pub open spec fn delete_where(table: Seq<char>, column: Seq<char>) -> Seq<char> {
    "DELETE FROM "@ + table + " WHERE "@ + column + "=?1"@
}

pub fn push_delete(out: &mut Vec<SqlQuery>, table: &str, column: &str, id: u64)
    ensures
        statement_views(final(out)@) == statement_views(old(out)@).push(
            (delete_where(table@, column@), seq![dec(id)]),
        ),
{
    let mut sql = String::from_str("DELETE FROM ");
    sql.append(table);
    sql.append(" WHERE ");
    sql.append(column);
    sql.append("=?1");
    push_statement(out, sql, params1(decimal_string(id)));
}

pub proof fn lemma_all_upserts_concat(a: Seq<StatementView>, b: Seq<StatementView>)
    requires
        all_upserts(a),
        all_upserts(b),
    ensures
        all_upserts(a + b),
{
    assert forall|i: int| 0 <= i < (a + b).len() implies is_upsert_sql(#[trigger] (a + b)[i].0) by {
        if i < a.len() {
            assert((a + b)[i] == a[i]);
        } else {
            assert((a + b)[i] == b[i - a.len()]);
        }
    }
}

pub proof fn lemma_replace_is_upsert(rest: Seq<char>)
    ensures
        is_upsert_sql(replace_into(rest)),
{
    assert(replace_into(rest) == replace_into(rest));
}

pub proof fn lemma_ignore_is_upsert(rest: Seq<char>)
    ensures
        is_upsert_sql(ignore_into(rest)),
{
    assert(ignore_into(rest) == ignore_into(rest) || ignore_into(rest) == replace_into(rest));
}

pub proof fn lemma_genre_upserts(gr: Seq<char>, lr: Seq<char>, gs: Seq<Genre>, owner: u64)
    ensures
        all_upserts(genre_statements(gr, lr, gs, owner)),
    decreases gs.len(),
{
    if gs.len() > 0 {
        lemma_genre_upserts(gr, lr, gs.drop_last(), owner);
        lemma_replace_is_upsert(gr);
        lemma_replace_is_upsert(lr);
        let g = gs.last();
        lemma_all_upserts_concat(
            genre_statements(gr, lr, gs.drop_last(), owner),
            seq![(replace_into(gr), seq![dec(g.id), g.name@]), (replace_into(lr), seq![dec(g.id), dec(owner)])],
        );
    }
}

pub proof fn lemma_cast_upserts(rest: Seq<char>, cs: Seq<Cast>, owner: u64)
    ensures
        all_upserts(cast_statements(rest, cs, owner)),
    decreases cs.len(),
{
    if cs.len() > 0 {
        lemma_cast_upserts(rest, cs.drop_last(), owner);
        lemma_replace_is_upsert(rest);
        let c = cs.last();
        lemma_all_upserts_concat(
            cast_statements(rest, cs.drop_last(), owner),
            seq![(replace_into(rest), seq![dec(c.id), dec(owner), or_empty(c.character), dec(c.order)])],
        );
    }
}

pub proof fn lemma_crew_upserts(rest: Seq<char>, cs: Seq<Crew>, owner: u64)
    ensures
        all_upserts(crew_statements(rest, cs, owner)),
    decreases cs.len(),
{
    if cs.len() > 0 {
        lemma_crew_upserts(rest, cs.drop_last(), owner);
        lemma_replace_is_upsert(rest);
        let c = cs.last();
        let tail = if is_kept_job(c.job@) {
            seq![(replace_into(rest), seq![dec(c.id), dec(owner), c.job@])]
        } else {
            Seq::<StatementView>::empty()
        };
        lemma_all_upserts_concat(crew_statements(rest, cs.drop_last(), owner), tail);
    }
}

pub proof fn lemma_creator_upserts(rest: Seq<char>, cs: Seq<CreatedBy>, owner: u64)
    ensures
        all_upserts(creator_statements(rest, cs, owner)),
    decreases cs.len(),
{
    if cs.len() > 0 {
        lemma_creator_upserts(rest, cs.drop_last(), owner);
        lemma_replace_is_upsert(rest);
        let c = cs.last();
        lemma_all_upserts_concat(
            creator_statements(rest, cs.drop_last(), owner),
            seq![(replace_into(rest), seq![dec(c.id), dec(owner), "Creator"@])],
        );
    }
}

pub proof fn lemma_trailer_upserts(rest: Seq<char>, vs: Seq<Video>, owner: u64)
    ensures
        all_upserts(trailer_statements(rest, vs, owner)),
    decreases vs.len(),
{
    if vs.len() > 0 {
        lemma_trailer_upserts(rest, vs.drop_last(), owner);
        lemma_replace_is_upsert(rest);
        let v = vs.last();
        let tail = if v.site@ == "YouTube"@ {
            seq![(replace_into(rest), seq![dec(owner), v.name@, v.key@])]
        } else {
            Seq::<StatementView>::empty()
        };
        lemma_all_upserts_concat(trailer_statements(rest, vs.drop_last(), owner), tail);
    }
}

pub proof fn lemma_keyword_upserts(lr: Seq<char>, kr: Seq<char>, ks: Seq<Keyword>, owner: u64)
    ensures
        all_upserts(keyword_statements(lr, kr, ks, owner)),
    decreases ks.len(),
{
    if ks.len() > 0 {
        lemma_keyword_upserts(lr, kr, ks.drop_last(), owner);
        lemma_replace_is_upsert(lr);
        lemma_ignore_is_upsert(kr);
        let k = ks.last();
        lemma_all_upserts_concat(
            keyword_statements(lr, kr, ks.drop_last(), owner),
            seq![(replace_into(lr), seq![dec(k.id), dec(owner)]), (ignore_into(kr), seq![dec(k.id), k.name@])],
        );
    }
}

/// The crew jobs that are kept.
pub open spec fn is_kept_job(job: Seq<char>) -> bool {
    job == "Screenplay"@ || job == "Director"@ || job == "Producer"@
}

/// Two statements per genre: the genre itself, then its link to `owner`.
pub open spec fn genre_statements(
    genre_rest: Seq<char>,
    link_rest: Seq<char>,
    gs: Seq<Genre>,
    owner: u64,
) -> Seq<StatementView>
    decreases gs.len(),
{
    if gs.len() == 0 {
        Seq::empty()
    } else {
        let g = gs.last();
        genre_statements(genre_rest, link_rest, gs.drop_last(), owner) + seq![
            (replace_into(genre_rest), seq![dec(g.id), g.name@]),
            (replace_into(link_rest), seq![dec(g.id), dec(owner)]),
        ]
    }
}

/// One statement per acting credit.
pub open spec fn cast_statements(rest: Seq<char>, cs: Seq<Cast>, owner: u64) -> Seq<StatementView>
    decreases cs.len(),
{
    if cs.len() == 0 {
        Seq::empty()
    } else {
        let c = cs.last();
        cast_statements(rest, cs.drop_last(), owner) + seq![
            (replace_into(rest), seq![dec(c.id), dec(owner), or_empty(c.character), dec(c.order)]),
        ]
    }
}

/// One statement per crew credit whose job is kept; the others are left out.
pub open spec fn crew_statements(rest: Seq<char>, cs: Seq<Crew>, owner: u64) -> Seq<StatementView>
    decreases cs.len(),
{
    if cs.len() == 0 {
        Seq::empty()
    } else {
        let c = cs.last();
        crew_statements(rest, cs.drop_last(), owner) + if is_kept_job(c.job@) {
            seq![(replace_into(rest), seq![dec(c.id), dec(owner), c.job@])]
        } else {
            Seq::empty()
        }
    }
}

/// One crew statement per creator of a show, with the job `Creator`.
pub open spec fn creator_statements(rest: Seq<char>, cs: Seq<CreatedBy>, owner: u64) -> Seq<
    StatementView,
>
    decreases cs.len(),
{
    if cs.len() == 0 {
        Seq::empty()
    } else {
        let c = cs.last();
        creator_statements(rest, cs.drop_last(), owner) + seq![
            (replace_into(rest), seq![dec(c.id), dec(owner), "Creator"@]),
        ]
    }
}

/// One statement per clip hosted on YouTube; the others are left out.
pub open spec fn trailer_statements(rest: Seq<char>, vs: Seq<Video>, owner: u64) -> Seq<
    StatementView,
>
    decreases vs.len(),
{
    if vs.len() == 0 {
        Seq::empty()
    } else {
        let v = vs.last();
        trailer_statements(rest, vs.drop_last(), owner) + if v.site@ == "YouTube"@ {
            seq![(replace_into(rest), seq![dec(owner), v.name@, v.key@])]
        } else {
            Seq::empty()
        }
    }
}

/// Two statements per keyword: its link to `owner`, then the keyword itself,
/// kept when it is already known.
pub open spec fn keyword_statements(
    link_rest: Seq<char>,
    keyword_rest: Seq<char>,
    ks: Seq<Keyword>,
    owner: u64,
) -> Seq<StatementView>
    decreases ks.len(),
{
    if ks.len() == 0 {
        Seq::empty()
    } else {
        let k = ks.last();
        keyword_statements(link_rest, keyword_rest, ks.drop_last(), owner) + seq![
            (replace_into(link_rest), seq![dec(k.id), dec(owner)]),
            (ignore_into(keyword_rest), seq![dec(k.id), k.name@]),
        ]
    }
}

/// The people of the acting credits, in order.
pub open spec fn cast_ids(cs: Seq<Cast>) -> Seq<u64>
    decreases cs.len(),
{
    if cs.len() == 0 {
        Seq::empty()
    } else {
        cast_ids(cs.drop_last()).push(cs.last().id)
    }
}

/// The people of the kept crew credits, in order.
pub open spec fn crew_ids(cs: Seq<Crew>) -> Seq<u64>
    decreases cs.len(),
{
    if cs.len() == 0 {
        Seq::empty()
    } else if is_kept_job(cs.last().job@) {
        crew_ids(cs.drop_last()).push(cs.last().id)
    } else {
        crew_ids(cs.drop_last())
    }
}

/// The creators of a show, in order.
pub open spec fn creator_ids(cs: Seq<CreatedBy>) -> Seq<u64>
    decreases cs.len(),
{
    if cs.len() == 0 {
        Seq::empty()
    } else {
        creator_ids(cs.drop_last()).push(cs.last().id)
    }
}

pub fn push_genres(
    out: &mut Vec<SqlQuery>,
    genre_rest: &str,
    link_rest: &str,
    gs: &Vec<Genre>,
    owner: u64,
)
    ensures
        statement_views(final(out)@) == statement_views(old(out)@) + genre_statements(
            genre_rest@,
            link_rest@,
            gs@,
            owner,
        ),
{
    let ghost start = statement_views(out@);
    let mut i: usize = 0;
    proof {
        assert(gs@.subrange(0, 0) =~= Seq::<Genre>::empty());
        assert(start + Seq::<StatementView>::empty() =~= start);
    }
    while i < gs.len()
        invariant
            i <= gs@.len(),
            statement_views(out@) == start + genre_statements(
                genre_rest@,
                link_rest@,
                gs@.subrange(0, i as int),
                owner,
            ),
        decreases gs@.len() - i,
    {
        let g = &gs[i];
        let ghost prev = statement_views(out@);
        push_statement(
            out,
            replace_into_sql(genre_rest),
            params2(decimal_string(g.id), g.name.clone()),
        );
        push_statement(out, replace_into_sql(link_rest), params2(decimal_string(g.id), decimal_string(owner)));
        proof {
            let next = gs@.subrange(0, i + 1);
            assert(next.drop_last() =~= gs@.subrange(0, i as int));
            assert(statement_views(out@) =~= start + genre_statements(genre_rest@, link_rest@, next, owner));
        }
        i = i + 1;
    }
    proof {
        assert(gs@.subrange(0, gs@.len() as int) =~= gs@);
    }
}

pub fn push_casts(out: &mut Vec<SqlQuery>, ids: &mut Vec<u64>, rest: &str, cs: &Vec<Cast>, owner: u64)
    ensures
        statement_views(final(out)@) == statement_views(old(out)@) + cast_statements(rest@, cs@, owner),
        final(ids)@ == old(ids)@ + cast_ids(cs@),
{
    let ghost start = statement_views(out@);
    let ghost start_ids = ids@;
    let mut i: usize = 0;
    proof {
        assert(cs@.subrange(0, 0) =~= Seq::<Cast>::empty());
        assert(start + Seq::<StatementView>::empty() =~= start);
        assert(start_ids + Seq::<u64>::empty() =~= start_ids);
    }
    while i < cs.len()
        invariant
            i <= cs@.len(),
            statement_views(out@) == start + cast_statements(rest@, cs@.subrange(0, i as int), owner),
            ids@ == start_ids + cast_ids(cs@.subrange(0, i as int)),
        decreases cs@.len() - i,
    {
        let c = &cs[i];
        push_statement(
            out,
            replace_into_sql(rest),
            params4(decimal_string(c.id), decimal_string(owner), text_or_empty(&c.character), decimal_string(c.order)),
        );
        ids.push(c.id);
        proof {
            let next = cs@.subrange(0, i + 1);
            assert(next.drop_last() =~= cs@.subrange(0, i as int));
            assert(statement_views(out@) =~= start + cast_statements(rest@, next, owner));
            assert(ids@ =~= start_ids + cast_ids(next));
        }
        i = i + 1;
    }
    proof {
        assert(cs@.subrange(0, cs@.len() as int) =~= cs@);
    }
}

pub fn push_crews(out: &mut Vec<SqlQuery>, ids: &mut Vec<u64>, rest: &str, cs: &Vec<Crew>, owner: u64)
    ensures
        statement_views(final(out)@) == statement_views(old(out)@) + crew_statements(rest@, cs@, owner),
        final(ids)@ == old(ids)@ + crew_ids(cs@),
{
    let ghost start = statement_views(out@);
    let ghost start_ids = ids@;
    let mut i: usize = 0;
    proof {
        assert(cs@.subrange(0, 0) =~= Seq::<Crew>::empty());
        assert(start + Seq::<StatementView>::empty() =~= start);
        assert(start_ids + Seq::<u64>::empty() =~= start_ids);
    }
    while i < cs.len()
        invariant
            i <= cs@.len(),
            statement_views(out@) == start + crew_statements(rest@, cs@.subrange(0, i as int), owner),
            ids@ == start_ids + crew_ids(cs@.subrange(0, i as int)),
        decreases cs@.len() - i,
    {
        let c = &cs[i];
        let next_ghost = Ghost(cs@.subrange(0, i + 1));
        proof {
            assert(next_ghost@.drop_last() =~= cs@.subrange(0, i as int));
        }
        let kept = text_is(&c.job, "Screenplay") || text_is(&c.job, "Director") || text_is(
            &c.job,
            "Producer",
        );
        if kept {
            push_statement(
                out,
                replace_into_sql(rest),
                params3(decimal_string(c.id), decimal_string(owner), c.job.clone()),
            );
            ids.push(c.id);
            proof {
                assert(statement_views(out@) =~= start + crew_statements(rest@, next_ghost@, owner));
                assert(ids@ =~= start_ids + crew_ids(next_ghost@));
            }
        } else {
            proof {
                assert(statement_views(out@) =~= start + crew_statements(rest@, next_ghost@, owner));
                assert(ids@ =~= start_ids + crew_ids(next_ghost@));
            }
        }
        i = i + 1;
    }
    proof {
        assert(cs@.subrange(0, cs@.len() as int) =~= cs@);
    }
}

pub fn push_creators(
    out: &mut Vec<SqlQuery>,
    ids: &mut Vec<u64>,
    rest: &str,
    cs: &Vec<CreatedBy>,
    owner: u64,
)
    ensures
        statement_views(final(out)@) == statement_views(old(out)@) + creator_statements(
            rest@,
            cs@,
            owner,
        ),
        final(ids)@ == old(ids)@ + creator_ids(cs@),
{
    let ghost start = statement_views(out@);
    let ghost start_ids = ids@;
    let mut i: usize = 0;
    proof {
        assert(cs@.subrange(0, 0) =~= Seq::<CreatedBy>::empty());
        assert(start + Seq::<StatementView>::empty() =~= start);
        assert(start_ids + Seq::<u64>::empty() =~= start_ids);
    }
    while i < cs.len()
        invariant
            i <= cs@.len(),
            statement_views(out@) == start + creator_statements(rest@, cs@.subrange(0, i as int), owner),
            ids@ == start_ids + creator_ids(cs@.subrange(0, i as int)),
        decreases cs@.len() - i,
    {
        let c = &cs[i];
        push_statement(
            out,
            replace_into_sql(rest),
            params3(decimal_string(c.id), decimal_string(owner), String::from_str("Creator")),
        );
        ids.push(c.id);
        proof {
            let next = cs@.subrange(0, i + 1);
            assert(next.drop_last() =~= cs@.subrange(0, i as int));
            assert(statement_views(out@) =~= start + creator_statements(rest@, next, owner));
            assert(ids@ =~= start_ids + creator_ids(next));
        }
        i = i + 1;
    }
    proof {
        assert(cs@.subrange(0, cs@.len() as int) =~= cs@);
    }
}

pub fn push_trailers(out: &mut Vec<SqlQuery>, rest: &str, vs: &Vec<Video>, owner: u64)
    ensures
        statement_views(final(out)@) == statement_views(old(out)@) + trailer_statements(
            rest@,
            vs@,
            owner,
        ),
{
    let ghost start = statement_views(out@);
    let mut i: usize = 0;
    proof {
        assert(vs@.subrange(0, 0) =~= Seq::<Video>::empty());
        assert(start + Seq::<StatementView>::empty() =~= start);
    }
    while i < vs.len()
        invariant
            i <= vs@.len(),
            statement_views(out@) == start + trailer_statements(rest@, vs@.subrange(0, i as int), owner),
        decreases vs@.len() - i,
    {
        let v = &vs[i];
        let next_ghost = Ghost(vs@.subrange(0, i + 1));
        proof {
            assert(next_ghost@.drop_last() =~= vs@.subrange(0, i as int));
        }
        if text_is(&v.site, "YouTube") {
            push_statement(
                out,
                replace_into_sql(rest),
                params3(decimal_string(owner), v.name.clone(), v.key.clone()),
            );
        }
        proof {
            assert(statement_views(out@) =~= start + trailer_statements(rest@, next_ghost@, owner));
        }
        i = i + 1;
    }
    proof {
        assert(vs@.subrange(0, vs@.len() as int) =~= vs@);
    }
}

pub fn push_keywords(
    out: &mut Vec<SqlQuery>,
    link_rest: &str,
    keyword_rest: &str,
    ks: &Vec<Keyword>,
    owner: u64,
)
    ensures
        statement_views(final(out)@) == statement_views(old(out)@) + keyword_statements(
            link_rest@,
            keyword_rest@,
            ks@,
            owner,
        ),
{
    let ghost start = statement_views(out@);
    let mut i: usize = 0;
    proof {
        assert(ks@.subrange(0, 0) =~= Seq::<Keyword>::empty());
        assert(start + Seq::<StatementView>::empty() =~= start);
    }
    while i < ks.len()
        invariant
            i <= ks@.len(),
            statement_views(out@) == start + keyword_statements(
                link_rest@,
                keyword_rest@,
                ks@.subrange(0, i as int),
                owner,
            ),
        decreases ks@.len() - i,
    {
        let k = &ks[i];
        push_statement(out, replace_into_sql(link_rest), params2(decimal_string(k.id), decimal_string(owner)));
        push_statement(out, ignore_into_sql(keyword_rest), params2(decimal_string(k.id), k.name.clone()));
        proof {
            let next = ks@.subrange(0, i + 1);
            assert(next.drop_last() =~= ks@.subrange(0, i as int));
            assert(statement_views(out@) =~= start + keyword_statements(
                link_rest@,
                keyword_rest@,
                next,
                owner,
            ));
        }
        i = i + 1;
    }
    proof {
        assert(ks@.subrange(0, ks@.len() as int) =~= ks@);
    }
}

} // verus!
