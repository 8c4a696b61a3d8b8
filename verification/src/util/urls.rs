//! The address of a query: host, the IP address, and the list of fields the
//! upstream is asked to send.

use crate::constant::{HTTPS_HOST, HTTP_HOST};
use crate::text::{
    free_of, has_item, join, join_with, lemma_split_join, occurs_at_most_once, occurs_once, split,
};
use vstd::prelude::*;

verus! {

/// The field that carries the upstream's reason when a query fails. It is
/// asked for with every field list, so that a failure can be told apart.
pub const MESSAGE_FIELD: &'static str = "message";

/// What stands between two fields of a field list.
pub const FIELD_SEPARATOR: &'static str = ",";

/// What stands between the IP address and the field list.
pub const FIELDS_PARAMETER: &'static str = "?fields=";

/// The host prefix of the secure endpoint if `https`, of the plaintext
/// endpoint otherwise.
pub open spec fn host(https: bool) -> Seq<char> {
    if https {
        HTTPS_HOST@
    } else {
        HTTP_HOST@
    }
}

/// The address of a query for `ip` that names no fields.
pub open spec fn url_without_fields(https: bool, ip: Seq<char>) -> Seq<char> {
    host(https) + ip
}

/// The fields an address asks for: the caller's fields in their order, and
/// after them the message field unless the caller named it.
pub open spec fn sent_fields(fields: Seq<Seq<char>>) -> Seq<Seq<char>> {
    if fields.contains(MESSAGE_FIELD@) {
        fields
    } else {
        fields.push(MESSAGE_FIELD@)
    }
}

/// The field list sent for `fields`: the fields the address asks for, joined
/// by commas.
pub open spec fn field_list(fields: Seq<Seq<char>>) -> Seq<char> {
    join(sent_fields(fields), FIELD_SEPARATOR@)
}

/// The address of a query for `ip` that asks for `fields`.
pub open spec fn url_with_fields(https: bool, ip: Seq<char>, fields: Seq<Seq<char>>) -> Seq<
    char,
> {
    host(https) + ip + FIELDS_PARAMETER@ + field_list(fields)
}

/// The address of a query for `ip`, with a field list where `fields` is given.
pub open spec fn url(https: bool, ip: Seq<char>, fields: Option<Seq<Seq<char>>>) -> Seq<char> {
    match fields {
        Some(fields) => url_with_fields(https, ip, fields),
        None => url_without_fields(https, ip),
    }
}

/// Without a field list, the address is the host of the scheme followed by
/// the IP address as it was given.
pub proof fn lemma_url_without_fields(ip: Seq<char>)
    ensures
        url(false, ip, None) == "http://ip-api.com/json/"@ + ip,
        url(true, ip, None) == "https://ip-api.com/json/"@ + ip,
{
}

/// The fields an address asks for name the message field exactly once,
/// whether or not the caller's fields name it. This holds for every list that
/// names the message field at most once.
pub proof fn lemma_message_field_asked_once(fields: Seq<Seq<char>>)
    requires
        occurs_at_most_once(fields, MESSAGE_FIELD@),
    ensures
        occurs_once(sent_fields(fields), MESSAGE_FIELD@),
{
    let message = MESSAGE_FIELD@;
    let sent = sent_fields(fields);
    if fields.contains(message) {
        let at = choose|i: int| 0 <= i < fields.len() && fields[i] == message;
        assert(sent[at] == message);
    } else {
        assert(sent[fields.len() as int] == message);
        assert forall|j: int| 0 <= j < sent.len() && sent[j] == message implies j
            == fields.len() by {
            if j < fields.len() {
                assert(fields.contains(fields[j]));
            }
        }
    }
}

/// Cut at the commas, the field list of an address holds the caller's fields
/// in their order, and after them the message field unless the caller named
/// it. This holds for fields that hold no comma.
pub proof fn lemma_field_list_keeps_fields(fields: Seq<Seq<char>>)
    requires
        free_of(fields, ','),
    ensures
        split(field_list(fields), ',') == sent_fields(fields),
{
    reveal_strlit("message");
    reveal_strlit(",");
    assert(FIELD_SEPARATOR@ =~= seq![',']);
    assert(!MESSAGE_FIELD@.contains(','));
    lemma_split_join(sent_fields(fields), ',');
}

/// The field list of every address names the message field exactly once,
/// whether or not the caller's fields name it: cut at the commas, exactly one
/// item of the list is the message field. This holds for fields that hold no
/// comma and that name the message field at most once.
pub proof fn lemma_message_field_sent_once(fields: Seq<Seq<char>>)
    requires
        free_of(fields, ','),
        occurs_at_most_once(fields, MESSAGE_FIELD@),
    ensures
        occurs_once(split(field_list(fields), ','), MESSAGE_FIELD@),
{
    lemma_field_list_keeps_fields(fields);
    lemma_message_field_asked_once(fields);
}

/// Builds the address of a query for `ip` that names no fields. The address
/// is put in as it is given.
pub fn build_url_without_fields(https: bool, ip: &String) -> (address: String)
    ensures
        address@ == url_without_fields(https, ip@),
        https ==> address@ == "https://ip-api.com/json/"@ + ip@,
        !https ==> address@ == "http://ip-api.com/json/"@ + ip@,
{
    let mut address = if https {
        HTTPS_HOST.to_owned()
    } else {
        HTTP_HOST.to_owned()
    };
    address.append(ip.as_str());
    address
}

/// Builds the address of a query for `ip` that asks for `fields`, and after
/// them for the message field if `fields` does not name it.
pub fn build_url_with_fields(https: bool, ip: &String, fields: &[&str]) -> (address: String)
    ensures
        address@ == url_with_fields(https, ip@, fields.deep_view()),
{
    let mut address = build_url_without_fields(https, ip);
    address.append(FIELDS_PARAMETER);
    let joined = join_with(fields, FIELD_SEPARATOR);
    address.append(joined.as_str());
    if !has_item(fields, MESSAGE_FIELD) {
        if fields.len() > 0 {
            address.append(FIELD_SEPARATOR);
        }
        address.append(MESSAGE_FIELD);
        assert(sent_fields(fields.deep_view()).drop_last() =~= fields.deep_view());
    }
    assert(address@ =~= url_with_fields(https, ip@, fields.deep_view()));
    address
}

/// Builds the address of a query for `ip`: over the secure scheme if the
/// client is authenticated, over the plaintext scheme otherwise; with a field
/// list if `fields` is given, without a query string otherwise.
pub fn build_url(is_authenticated: bool, ip: &String, fields: Option<&[&str]>) -> (address: String)
    ensures
        address@ == url(
            is_authenticated,
            ip@,
            match fields {
                Some(fields) => Some(fields.deep_view()),
                None => None,
            },
        ),
{
    match fields {
        Some(fields) => build_url_with_fields(is_authenticated, ip, fields),
        None => build_url_without_fields(is_authenticated, ip),
    }
}

} // verus!
