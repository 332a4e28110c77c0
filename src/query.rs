use vstd::prelude::*;

use crate::text::{decimal, decimal_string, texts};

verus! {

/// One predicate on a column: `Some((operator, value))` binds the value
/// after the operator, `None` asks for the column to be NULL.
#[derive(Debug)]
pub struct Filter {
    pub column: String,
    pub condition: Option<(String, String)>,
}

pub type FilterView = (Seq<char>, Option<(Seq<char>, Seq<char>)>);

impl View for Filter {
    type V = FilterView;

    open spec fn view(&self) -> FilterView {
        (
            self.column@,
            match self.condition {
                Some((op, value)) => Some((op@, value@)),
                None => None,
            },
        )
    }
}

pub open spec fn filter_views(fs: Seq<Filter>) -> Seq<FilterView> {
    fs.map_values(|f: Filter| f@)
}

pub open spec fn opt_text(o: Option<String>) -> Option<Seq<char>> {
    match o {
        Some(s) => Some(s@),
        None => None,
    }
}

pub open spec fn opt_ref(o: Option<&String>) -> Option<Seq<char>> {
    match o {
        Some(s) => Some(s@),
        None => None,
    }
}

pub open spec fn opt_str(o: Option<&str>) -> Option<Seq<char>> {
    match o {
        Some(s) => Some(s@),
        None => None,
    }
}

/// How many filters bind a value.
pub open spec fn bound_count(fs: Seq<FilterView>) -> nat
    decreases fs.len(),
{
    if fs.len() == 0 {
        0
    } else {
        bound_count(fs.drop_last()) + if fs.last().1 is Some {
            1nat
        } else {
            0nat
        }
    }
}

/// The values that the filters bind, in filter order.
pub open spec fn bound_values(fs: Seq<FilterView>) -> Seq<Seq<char>>
    decreases fs.len(),
{
    if fs.len() == 0 {
        Seq::empty()
    } else {
        bound_values(fs.drop_last()) + match fs.last().1 {
            Some((_op, v)) => seq![v],
            None => Seq::empty(),
        }
    }
}

/// The placeholder numbers that the filters use, in filter order, when
/// `lead` parameters are bound before them.
pub open spec fn placeholders(fs: Seq<FilterView>, lead: nat) -> Seq<nat>
    decreases fs.len(),
{
    if fs.len() == 0 {
        Seq::empty()
    } else {
        let before = fs.drop_last();
        placeholders(before, lead) + if fs.last().1 is Some {
            seq![lead + bound_count(before) + 1]
        } else {
            Seq::empty()
        }
    }
}

/// The text of one predicate, `<column> <operator> ?<index> ` or
/// `<column> IS NULL `.
pub open spec fn condition_text(f: FilterView, index: nat) -> Seq<char> {
    match f.1 {
        Some((op, _v)) => f.0 + " "@ + op + " ?"@ + decimal(index) + " "@,
        None => f.0 + " IS NULL "@,
    }
}

/// The predicates joined by `AND `.
pub open spec fn conditions_text(fs: Seq<FilterView>, lead: nat) -> Seq<char>
    decreases fs.len(),
{
    if fs.len() == 0 {
        Seq::empty()
    } else {
        let before = fs.drop_last();
        conditions_text(before, lead) + (if before.len() > 0 {
            "AND "@
        } else {
            Seq::empty()
        }) + condition_text(fs.last(), lead + bound_count(before) + 1)
    }
}

pub open spec fn where_text(fs: Seq<FilterView>, lead: nat) -> Seq<char> {
    if fs.len() > 0 {
        " WHERE "@ + conditions_text(fs, lead) + "\n"@
    } else {
        Seq::empty()
    }
}

pub open spec fn group_text(group_by: Option<Seq<char>>) -> Seq<char> {
    match group_by {
        Some(g) => "GROUP BY "@ + g + " \n"@,
        None => Seq::empty(),
    }
}

pub open spec fn order_text(order_by: Option<Seq<char>>) -> Seq<char> {
    match order_by {
        Some(o) => "ORDER BY "@ + o + " \n"@,
        None => Seq::empty(),
    }
}

pub open spec fn limit_text(limit: Option<u64>, offset: Option<u64>) -> Seq<char> {
    match limit {
        Some(l) => "LIMIT "@ + decimal(l as nat) + match offset {
            Some(o) => " OFFSET "@ + decimal(o as nat) + " \n"@,
            None => "\n"@,
        },
        None => Seq::empty(),
    }
}

/// The whole statement: the head, then WHERE, GROUP BY, ORDER BY and LIMIT in
/// that order, each only when asked for.
pub open spec fn query_text(
    head: Seq<char>,
    fs: Seq<FilterView>,
    lead: nat,
    group_by: Option<Seq<char>>,
    order_by: Option<Seq<char>>,
    limit: Option<u64>,
    offset: Option<u64>,
) -> Seq<char> {
    head + where_text(fs, lead) + group_text(group_by) + order_text(order_by) + limit_text(
        limit,
        offset,
    )
}

/// The parameters: the leading one, if any, then the bound filter values.
pub open spec fn query_params(user: Option<Seq<char>>, fs: Seq<FilterView>) -> Seq<Seq<char>> {
    match user {
        Some(u) => seq![u] + bound_values(fs),
        None => bound_values(fs),
    }
}

pub open spec fn lead_count(user: Option<Seq<char>>) -> nat {
    if user is Some {
        1
    } else {
        0
    }
}

/// The filters with `f` set: it replaces the filter on the same column where
/// there is one, in its place, and comes last otherwise.
pub open spec fn with_filter(fs: Seq<FilterView>, f: FilterView) -> Seq<FilterView>
    decreases fs.len(),
{
    if fs.len() == 0 {
        seq![f]
    } else if fs[0].0 == f.0 {
        fs.update(0, f)
    } else {
        seq![fs[0]] + with_filter(fs.drop_first(), f)
    }
}

proof fn lemma_with_filter_at(fs: Seq<FilterView>, f: FilterView, i: int)
    requires
        0 <= i < fs.len(),
        fs[i].0 == f.0,
        forall|j: int| 0 <= j < i ==> (#[trigger] fs[j]).0 != f.0,
    ensures
        with_filter(fs, f) == fs.update(i, f),
    decreases i,
{
    if i > 0 {
        lemma_with_filter_at(fs.drop_first(), f, i - 1);
        assert(seq![fs[0]] + fs.drop_first().update(i - 1, f) =~= fs.update(i, f));
    }
}

proof fn lemma_with_filter_new(fs: Seq<FilterView>, f: FilterView)
    requires
        forall|j: int| 0 <= j < fs.len() ==> (#[trigger] fs[j]).0 != f.0,
    ensures
        with_filter(fs, f) == fs.push(f),
    decreases fs.len(),
{
    if fs.len() > 0 {
        lemma_with_filter_new(fs.drop_first(), f);
        assert(seq![fs[0]] + fs.drop_first().push(f) =~= fs.push(f));
    }
}

/// What a search has collected: its filters, one per column in the order
/// first set, and its ordering.
#[derive(Debug)]
pub struct Criteria {
    pub filters: Vec<Filter>,
    pub order_by: Option<String>,
}

impl Criteria {
    pub fn new() -> (r: Criteria)
        ensures
            r.filters@.len() == 0,
            r.order_by is None,
    {
        Criteria { filters: Vec::new(), order_by: None }
    }

    /// Sets the filter on `column`: `Some(value)` compares the column to the
    /// value with `operator`, `None` asks for the column to be NULL.
    pub fn find(&mut self, column: &str, operator: &str, value: Option<String>)
        ensures
            filter_views(final(self).filters@) == with_filter(
                filter_views(old(self).filters@),
                (
                    column@,
                    match value {
                        Some(v) => Some((operator@, v@)),
                        None => None,
                    },
                ),
            ),
            final(self).order_by == old(self).order_by,
    {
        let condition = match value {
            Some(v) => Some((String::from_str(operator), v)),
            None => None,
        };
        let f = Filter { column: String::from_str(column), condition };
        assert(f@ == (
            column@,
            match value {
                Some(v) => Some((operator@, v@)),
                None => None,
            },
        ));
        let ghost fs = filter_views(self.filters@);
        let ghost fv = f@;
        let n = self.filters.len();
        let mut i: usize = 0;
        while i < n
            invariant
                n == self.filters@.len(),
                i <= n,
                fs == filter_views(self.filters@),
                fs == filter_views(old(self).filters@),
                self.order_by == old(self).order_by,
                fv == f@,
                fv == (
                    column@,
                    match value {
                        Some(v) => Some((operator@, v@)),
                        None => None,
                    },
                ),
                forall|j: int| 0 <= j < i ==> (#[trigger] fs[j]).0 != fv.0,
            decreases n - i,
        {
            if self.filters[i].column == f.column {
                proof {
                    lemma_with_filter_at(fs, fv, i as int);
                }
                self.filters.set(i, f);
                proof {
                    assert(filter_views(self.filters@) =~= fs.update(i as int, fv));
                }
                return;
            }
            i = i + 1;
        }
        proof {
            lemma_with_filter_new(fs, fv);
        }
        self.filters.push(f);
        proof {
            assert(filter_views(self.filters@) =~= fs.push(fv));
        }
    }

    pub fn set_order(&mut self, order_by: String)
        ensures
            final(self).order_by == Some(order_by),
            final(self).filters == old(self).filters,
    {
        self.order_by = Some(order_by);
    }
}

/// A statement and its positional parameters, `?1` naming the first.
#[derive(Debug)]
pub struct SqlQuery {
    pub sql: String,
    pub params: Vec<String>,
}

pub type StatementView = (Seq<char>, Seq<Seq<char>>);

impl View for SqlQuery {
    type V = StatementView;

    open spec fn view(&self) -> StatementView {
        (self.sql@, texts(self.params@))
    }
}

pub open spec fn statement_views(v: Seq<SqlQuery>) -> Seq<StatementView> {
    v.map_values(|q: SqlQuery| q@)
}

/// Pairs a statement with its parameters.
pub fn statement(sql: String, params: Vec<String>) -> (r: SqlQuery)
    ensures
        r@ == (sql@, texts(params@)),
{
    SqlQuery { sql, params }
}

/// Parameter lists of one to four values.
pub fn params1(a: String) -> (r: Vec<String>)
    ensures
        texts(r@) == seq![a@],
{
    let mut v: Vec<String> = Vec::new();
    v.push(a);
    proof {
        assert(texts(v@) =~= seq![a@]);
    }
    v
}

pub fn params2(a: String, b: String) -> (r: Vec<String>)
    ensures
        texts(r@) == seq![a@, b@],
{
    let mut v: Vec<String> = Vec::new();
    v.push(a);
    v.push(b);
    proof {
        assert(texts(v@) =~= seq![a@, b@]);
    }
    v
}

pub fn params3(a: String, b: String, c: String) -> (r: Vec<String>)
    ensures
        texts(r@) == seq![a@, b@, c@],
{
    let mut v: Vec<String> = Vec::new();
    v.push(a);
    v.push(b);
    v.push(c);
    proof {
        assert(texts(v@) =~= seq![a@, b@, c@]);
    }
    v
}

pub fn params4(a: String, b: String, c: String, d: String) -> (r: Vec<String>)
    ensures
        texts(r@) == seq![a@, b@, c@, d@],
{
    let mut v: Vec<String> = Vec::new();
    v.push(a);
    v.push(b);
    v.push(c);
    v.push(d);
    proof {
        assert(texts(v@) =~= seq![a@, b@, c@, d@]);
    }
    v
}

/// Appends one statement to a list.
pub fn push_statement(out: &mut Vec<SqlQuery>, sql: String, params: Vec<String>)
    ensures
        statement_views(final(out)@) == statement_views(old(out)@).push((sql@, texts(params@))),
{
    let ghost before = out@;
    out.push(SqlQuery { sql, params });
    proof {
        assert(statement_views(out@) =~= statement_views(before).push((sql@, texts(params@))));
    }
}

proof fn lemma_bound_values_len(fs: Seq<FilterView>)
    ensures
        bound_values(fs).len() == bound_count(fs),
    decreases fs.len(),
{
    if fs.len() > 0 {
        lemma_bound_values_len(fs.drop_last());
    }
}

proof fn lemma_bound_count_le(fs: Seq<FilterView>)
    ensures
        bound_count(fs) <= fs.len(),
    decreases fs.len(),
{
    if fs.len() > 0 {
        lemma_bound_count_le(fs.drop_last());
    }
}

fn append_condition(sql: &mut String, f: &Filter, index: u64)
    ensures
        final(sql)@ == old(sql)@ + condition_text(f@, index as nat),
{
    sql.append(f.column.as_str());
    match &f.condition {
        Some((op, _value)) => {
            let digits = decimal_string(index);
            sql.append(" ");
            sql.append(op.as_str());
            sql.append(" ?");
            sql.append(digits.as_str());
            sql.append(" ");
        },
        None => {
            sql.append(" IS NULL ");
        },
    }
}

proof fn lemma_step(user: Option<Seq<char>>, fs: Seq<FilterView>, i: int)
    requires
        0 <= i < fs.len(),
    ensures
        conditions_text(fs.subrange(0, i + 1), lead_count(user)) == conditions_text(
            fs.subrange(0, i),
            lead_count(user),
        ) + (if i > 0 {
            "AND "@
        } else {
            Seq::empty()
        }) + condition_text(fs[i], lead_count(user) + bound_count(fs.subrange(0, i)) + 1),
        bound_count(fs.subrange(0, i + 1)) == bound_count(fs.subrange(0, i)) + if fs[i].1 is Some {
            1nat
        } else {
            0nat
        },
        query_params(user, fs.subrange(0, i + 1)) == query_params(user, fs.subrange(0, i)) + match fs[i].1 {
            Some((_op, v)) => seq![v],
            None => Seq::<Seq<char>>::empty(),
        },
{
    let upto = fs.subrange(0, i + 1);
    assert(upto.drop_last() =~= fs.subrange(0, i));
    assert(upto.last() == fs[i]);
    match user {
        Some(u) => {
            assert(query_params(user, upto) =~= query_params(user, fs.subrange(0, i)) + match fs[i].1 {
                Some((_op, v)) => seq![v],
                None => Seq::<Seq<char>>::empty(),
            });
        },
        None => {},
    }
}

fn append_limit(sql: &mut String, limit: Option<u64>, offset: Option<u64>)
    ensures
        final(sql)@ == old(sql)@ + limit_text(limit, offset),
{
    let ghost start = sql@;
    match limit {
        Some(l) => {
            sql.append("LIMIT ");
            let lt = decimal_string(l);
            sql.append(lt.as_str());
            match offset {
                Some(o) => {
                    sql.append(" OFFSET ");
                    let ot = decimal_string(o);
                    sql.append(ot.as_str());
                    sql.append(" \n");
                },
                None => {
                    sql.append("\n");
                },
            }
        },
        None => {},
    }
    proof {
        assert(sql@ =~= start + limit_text(limit, offset));
    }
}

fn append_tail(
    sql: &mut String,
    group_by: Option<&str>,
    order_by: &Option<String>,
    limit: Option<u64>,
    offset: Option<u64>,
)
    ensures
        final(sql)@ == old(sql)@ + group_text(opt_str(group_by)) + order_text(opt_text(*order_by))
            + limit_text(limit, offset),
{
    let ghost start = sql@;
    match group_by {
        Some(g) => {
            sql.append("GROUP BY ");
            sql.append(g);
            sql.append(" \n");
        },
        None => {},
    }
    let ghost after_group = sql@;
    match order_by {
        Some(o) => {
            sql.append("ORDER BY ");
            sql.append(o.as_str());
            sql.append(" \n");
        },
        None => {},
    }
    let ghost after_order = sql@;
    append_limit(sql, limit, offset);
    proof {
        assert(after_group =~= start + group_text(opt_str(group_by)));
        assert(after_order =~= after_group + order_text(opt_text(*order_by)));
        assert(sql@ =~= after_order + limit_text(limit, offset));
    }
}

/// Builds the statement for `head` with the given filters, optional leading
/// parameter, grouping, ordering and paging.
pub fn generate_sql(
    head: &str,
    filters: &Vec<Filter>,
    user: Option<&String>,
    group_by: Option<&str>,
    order_by: &Option<String>,
    limit: Option<u64>,
    offset: Option<u64>,
) -> (r: SqlQuery)
    ensures
        r.sql@ == query_text(
            head@,
            filter_views(filters@),
            lead_count(opt_ref(user)),
            opt_str(group_by),
            opt_text(*order_by),
            limit,
            offset,
        ),
        texts(r.params@) == query_params(opt_ref(user), filter_views(filters@)),
{
    let ghost fs = filter_views(filters@);
    let ghost uv = opt_ref(user);
    let ghost lead = lead_count(uv);
    let mut params: Vec<String> = Vec::new();
    let mut sql = String::from_str(head);
    match user {
        Some(u) => {
            params.push(u.clone());
        },
        None => {},
    }
    proof {
        assert(texts(params@) =~= query_params(uv, Seq::<FilterView>::empty()));
    }
    let n = filters.len();
    if n > 0 {
        sql.append(" WHERE ");
        let mut i: usize = 0;
        while i < n
            invariant
                n == filters@.len(),
                n > 0,
                i <= n,
                fs == filter_views(filters@),
                lead == lead_count(uv),
                sql@ == head@ + " WHERE "@ + conditions_text(fs.subrange(0, i as int), lead),
                texts(params@) == query_params(uv, fs.subrange(0, i as int)),
                params@.len() == lead + bound_count(fs.subrange(0, i as int)),
            decreases n - i,
        {
            proof {
                lemma_step(uv, fs, i as int);
                lemma_bound_count_le(fs.subrange(0, i as int));
            }
            let f = &filters[i];
            let ghost earlier = params@;
            match &f.condition {
                Some((_op, value)) => {
                    params.push(value.clone());
                    proof {
                        assert(texts(params@) =~= texts(earlier).push(value@));
                    }
                },
                None => {},
            }
            if i > 0 {
                sql.append("AND ");
            }
            append_condition(&mut sql, f, params.len() as u64);
            i = i + 1;
        }
        sql.append("\n");
        proof {
            assert(fs.subrange(0, n as int) =~= fs);
        }
    } else {
        proof {
            assert(fs.len() == 0);
            assert(bound_values(fs) =~= Seq::<Seq<char>>::empty());
            assert(query_params(uv, fs) =~= query_params(uv, Seq::<FilterView>::empty()));
        }
    }
    proof {
        assert(sql@ =~= head@ + where_text(fs, lead));
    }
    append_tail(&mut sql, group_by, order_by, limit, offset);
    SqlQuery { sql, params }
}

/// Placeholders are numbered consecutively after the leading parameters, so
/// every placeholder names a bound value and every bound value is named by
/// exactly one placeholder: the statement holds no unbound placeholder.
pub proof fn lemma_placeholders_consecutive(user: Option<Seq<char>>, fs: Seq<FilterView>)
    ensures
        placeholders(fs, lead_count(user)).len() == bound_count(fs),
        forall|k: int|
            0 <= k < bound_count(fs) ==> #[trigger] placeholders(fs, lead_count(user))[k]
                == lead_count(user) + k + 1,
        query_params(user, fs).len() == lead_count(user) + bound_count(fs),
    decreases fs.len(),
{
    lemma_bound_values_len(fs);
    if fs.len() > 0 {
        lemma_placeholders_consecutive(user, fs.drop_last());
    }
}

} // verus!
