use crate::types::KachakaApiError;
use vstd::string::StringExecFns;
use vstd::prelude::*;

verus! {

/// One field of a record of the controller's error-code table, as far as
/// the table reads it.
#[derive(Debug)]
pub enum ErrorCodeField {
    /// A whole number that fits in 64 bits.
    Integer(i64),
    /// A text.
    Text(String),
    /// Anything else.
    Other,
}

/// The code of a record: what its last `code` field holds, where that is a
/// whole number.
pub open spec fn record_code(fields: Seq<(String, ErrorCodeField)>) -> Option<i64>
    decreases fields.len(),
{
    if fields.len() == 0 {
        None
    } else if fields.last().0@ == "code"@ {
        match fields.last().1 {
            ErrorCodeField::Integer(n) => Some(n),
            _ => None,
        }
    } else {
        record_code(fields.drop_last())
    }
}

/// The texts of a record's fields other than `code`, in order, where every
/// one of them is a text.
pub open spec fn record_texts(fields: Seq<(String, ErrorCodeField)>) -> Option<Seq<(String, String)>>
    decreases fields.len(),
{
    if fields.len() == 0 {
        Some(Seq::empty())
    } else {
        match record_texts(fields.drop_last()) {
            None => None,
            Some(texts) => if fields.last().0@ == "code"@ {
                Some(texts)
            } else {
                match fields.last().1 {
                    ErrorCodeField::Text(t) => Some(texts.push((fields.last().0, t))),
                    _ => None,
                }
            },
        }
    }
}

/// What a record of the table stands for: its code, cut to 32 bits, with the
/// texts that describe it.
pub open spec fn decode_record(fields: Seq<(String, ErrorCodeField)>) -> Option<(i32, Seq<(String, String)>)> {
    match (record_code(fields), record_texts(fields)) {
        (Some(code), Some(texts)) => Some((code as i32, texts)),
        _ => None,
    }
}

/// Turns the controller's error-code records into a table from each code to
/// the texts that describe it, in the order of the records. Every record
/// must have a whole-number `code` and text in all its other fields; a table
/// that breaks this is a protocol violation.
pub fn error_code_table(records: &Vec<Vec<(String, ErrorCodeField)>>) -> (r: Result<
    Vec<(i32, Vec<(String, String)>)>,
    KachakaApiError,
>)
    ensures
        match r {
            Ok(table) => table@.len() == records@.len() && forall|i: int|
                0 <= i < records@.len() ==> decode_record(#[trigger] records@[i]@) == Some(
                    (table@[i].0, table@[i].1@),
                ),
            Err(e) => e is NullResult && exists|i: int|
                0 <= i < records@.len() && decode_record(#[trigger] records@[i]@) is None,
        },
{
    let mut table: Vec<(i32, Vec<(String, String)>)> = Vec::new();
    let mut i: usize = 0;
    while i < records.len()
        invariant
            i <= records@.len(),
            table@.len() == i,
            forall|j: int|
                0 <= j < i ==> decode_record(#[trigger] records@[j]@) == Some(
                    (table@[j].0, table@[j].1@),
                ),
        decreases records@.len() - i,
    {
        match decode_error_code_record(&records[i]) {
            Some(entry) => table.push(entry),
            None => return Err(KachakaApiError::NullResult),
        }
        i = i + 1;
    }
    Ok(table)
}

/// Decodes one record of the error-code table.
fn decode_error_code_record(fields: &Vec<(String, ErrorCodeField)>) -> (r: Option<(i32, Vec<(String, String)>)>)
    ensures
        match r {
            Some(entry) => decode_record(fields@) == Some((entry.0, entry.1@)),
            None => decode_record(fields@) is None,
        },
{
    let code_key = String::from_str("code");
    let mut code: Option<i64> = None;
    let mut texts: Vec<(String, String)> = Vec::new();
    let mut all_text = true;
    let mut i: usize = 0;
    while i < fields.len()
        invariant
            i <= fields@.len(),
            code_key@ == "code"@,
            code == record_code(fields@.take(i as int)),
            all_text == record_texts(fields@.take(i as int)) is Some,
            all_text ==> record_texts(fields@.take(i as int)) == Some(texts@),
        decreases fields@.len() - i,
    {
        let ghost prefix = fields@.take(i as int);
        assert(fields@.take(i + 1).drop_last() =~= prefix);
        let (key, field) = &fields[i];
        if *key == code_key {
            code = match field {
                ErrorCodeField::Integer(n) => Some(*n),
                _ => None,
            };
        } else {
            match field {
                ErrorCodeField::Text(t) => {
                    if all_text {
                        texts.push((key.clone(), t.clone()));
                    }
                },
                _ => {
                    all_text = false;
                },
            }
        }
        i = i + 1;
    }
    assert(fields@.take(fields@.len() as int) =~= fields@);
    match code {
        Some(n) => if all_text {
            Some((n as i32, texts))
        } else {
            None
        },
        None => None,
    }
}

} // verus!
