use vstd::prelude::*;

use crate::error::{Error, ErrorKind};
use crate::store::Cell;
use crate::text::{signed_decimal, signed_decimal_string, split_on, split_text, texts};

verus! {

/// The cells of each row.
pub open spec fn row_views(rows: Seq<Vec<Cell>>) -> Seq<Seq<Cell>> {
    rows.map_values(|r: Vec<Cell>| r@)
}

/// A non-negative integer column.
pub open spec fn at_u64(row: Seq<Cell>, i: int) -> Option<u64> {
    if 0 <= i < row.len() {
        match row[i] {
            Cell::Integer(v) => if v >= 0 {
                Some(v as u64)
            } else {
                None
            },
            _ => None,
        }
    } else {
        None
    }
}

/// An integer column.
pub open spec fn at_i64(row: Seq<Cell>, i: int) -> Option<i64> {
    if 0 <= i < row.len() {
        match row[i] {
            Cell::Integer(v) => Some(v),
            _ => None,
        }
    } else {
        None
    }
}

/// A text column that must not be NULL.
pub open spec fn at_text(row: Seq<Cell>, i: int) -> Option<Seq<char>> {
    if 0 <= i < row.len() {
        match row[i] {
            Cell::Text(s) => Some(s@),
            _ => None,
        }
    } else {
        None
    }
}

/// A text column that may be NULL.
pub open spec fn at_opt_text(row: Seq<Cell>, i: int) -> Option<Option<Seq<char>>> {
    if 0 <= i < row.len() {
        match row[i] {
            Cell::Null => Some(None),
            Cell::Text(s) => Some(Some(s@)),
            _ => None,
        }
    } else {
        None
    }
}

/// A non-negative integer column that may be NULL.
pub open spec fn at_opt_u64(row: Seq<Cell>, i: int) -> Option<Option<u64>> {
    if 0 <= i < row.len() {
        match row[i] {
            Cell::Null => Some(None),
            Cell::Integer(v) => if v >= 0 {
                Some(Some(v as u64))
            } else {
                None
            },
            _ => None,
        }
    } else {
        None
    }
}

/// A numeric column, as decimal text: a real number as the engine printed
/// it, an integer in decimal.
pub open spec fn at_number(row: Seq<Cell>, i: int) -> Option<Seq<char>> {
    if 0 <= i < row.len() {
        match row[i] {
            Cell::Real(s) => Some(s@),
            Cell::Integer(v) => Some(signed_decimal(v as int)),
            _ => None,
        }
    } else {
        None
    }
}

/// A small non-negative integer column.
pub open spec fn at_u8(row: Seq<Cell>, i: int) -> Option<u8> {
    match at_u64(row, i) {
        Some(v) => if v <= 255 {
            Some(v as u8)
        } else {
            None
        },
        None => None,
    }
}

/// A watched counter column: NULL, for no mark, counts as zero.
pub open spec fn at_watched(row: Seq<Cell>, i: int) -> Option<u64> {
    match at_opt_u64(row, i) {
        Some(Some(v)) => Some(v),
        Some(None) => Some(0),
        None => None,
    }
}

/// A comma-joined list column: NULL stands for the empty list.
pub open spec fn at_list(row: Seq<Cell>, i: int) -> Option<Seq<Seq<char>>> {
    match at_opt_text(row, i) {
        Some(Some(s)) => Some(split_on(s, ',')),
        Some(None) => Some(Seq::empty()),
        None => None,
    }
}

fn decode_error(location: &str) -> (r: Error)
    ensures
        r.kind is Decode,
        r.location@ == location@,
{
    Error::new(ErrorKind::Decode, String::from_str("unexpected column type"), location)
}

pub fn get_u64(row: &Vec<Cell>, i: usize, location: &str) -> (r: Result<u64, Error>)
    ensures
        match r {
            Ok(v) => at_u64(row@, i as int) == Some(v),
            Err(e) => at_u64(row@, i as int) is None && e.kind is Decode,
        },
{
    if i < row.len() {
        match &row[i] {
            Cell::Integer(v) => {
                if *v >= 0 {
                    return Ok(*v as u64);
                }
            },
            _ => {},
        }
    }
    Err(decode_error(location))
}

pub fn get_i64(row: &Vec<Cell>, i: usize, location: &str) -> (r: Result<i64, Error>)
    ensures
        match r {
            Ok(v) => at_i64(row@, i as int) == Some(v),
            Err(e) => at_i64(row@, i as int) is None && e.kind is Decode,
        },
{
    if i < row.len() {
        match &row[i] {
            Cell::Integer(v) => {
                return Ok(*v);
            },
            _ => {},
        }
    }
    Err(decode_error(location))
}

pub fn get_text(row: &Vec<Cell>, i: usize, location: &str) -> (r: Result<String, Error>)
    ensures
        match r {
            Ok(v) => at_text(row@, i as int) == Some(v@),
            Err(e) => at_text(row@, i as int) is None && e.kind is Decode,
        },
{
    if i < row.len() {
        match &row[i] {
            Cell::Text(s) => {
                return Ok(s.clone());
            },
            _ => {},
        }
    }
    Err(decode_error(location))
}

pub fn get_opt_text(row: &Vec<Cell>, i: usize, location: &str) -> (r: Result<Option<String>, Error>)
    ensures
        match r {
            Ok(v) => at_opt_text(row@, i as int) == Some(
                match v {
                    Some(s) => Some(s@),
                    None => None::<Seq<char>>,
                },
            ),
            Err(e) => at_opt_text(row@, i as int) is None && e.kind is Decode,
        },
{
    if i < row.len() {
        match &row[i] {
            Cell::Text(s) => {
                return Ok(Some(s.clone()));
            },
            Cell::Null => {
                return Ok(None);
            },
            _ => {},
        }
    }
    Err(decode_error(location))
}

pub fn get_opt_u64(row: &Vec<Cell>, i: usize, location: &str) -> (r: Result<Option<u64>, Error>)
    ensures
        match r {
            Ok(v) => at_opt_u64(row@, i as int) == Some(v),
            Err(e) => at_opt_u64(row@, i as int) is None && e.kind is Decode,
        },
{
    if i < row.len() {
        match &row[i] {
            Cell::Integer(v) => {
                if *v >= 0 {
                    return Ok(Some(*v as u64));
                }
            },
            Cell::Null => {
                return Ok(None);
            },
            _ => {},
        }
    }
    Err(decode_error(location))
}

pub fn get_number(row: &Vec<Cell>, i: usize, location: &str) -> (r: Result<String, Error>)
    ensures
        match r {
            Ok(v) => at_number(row@, i as int) == Some(v@),
            Err(e) => at_number(row@, i as int) is None && e.kind is Decode,
        },
{
    if i < row.len() {
        match &row[i] {
            Cell::Real(s) => {
                return Ok(s.clone());
            },
            Cell::Integer(v) => {
                return Ok(signed_decimal_string(*v));
            },
            _ => {},
        }
    }
    Err(decode_error(location))
}

pub fn get_u8(row: &Vec<Cell>, i: usize, location: &str) -> (r: Result<u8, Error>)
    ensures
        match r {
            Ok(v) => at_u8(row@, i as int) == Some(v),
            Err(e) => at_u8(row@, i as int) is None && e.kind is Decode,
        },
{
    let v = get_u64(row, i, location)?;
    if v <= 255 {
        Ok(v as u8)
    } else {
        Err(decode_error(location))
    }
}

pub fn get_watched(row: &Vec<Cell>, i: usize, location: &str) -> (r: Result<u64, Error>)
    ensures
        match r {
            Ok(v) => at_watched(row@, i as int) == Some(v),
            Err(e) => at_watched(row@, i as int) is None && e.kind is Decode,
        },
{
    let v = get_opt_u64(row, i, location)?;
    Ok(crate::watch::parse_watched(v))
}

/// Splits a comma-joined list; an absent list gives `None`.
pub fn parse_concat(row: Option<String>) -> (r: Option<Vec<String>>)
    ensures
        match row {
            Some(s) => r matches Some(v) && texts(v@) == split_on(s@, ','),
            None => r is None,
        },
{
    match row {
        Some(s) => Some(split_text(s.as_str(), ',')),
        None => None,
    }
}

pub fn get_list(row: &Vec<Cell>, i: usize, location: &str) -> (r: Result<Vec<String>, Error>)
    ensures
        match r {
            Ok(v) => at_list(row@, i as int) == Some(texts(v@)),
            Err(e) => at_list(row@, i as int) is None && e.kind is Decode,
        },
{
    let column = get_opt_text(row, i, location)?;
    match parse_concat(column) {
        Some(v) => Ok(v),
        None => {
            let v: Vec<String> = Vec::new();
            proof {
                assert(texts(v@) =~= Seq::<Seq<char>>::empty());
            }
            Ok(v)
        },
    }
}

} // verus!
