use vstd::prelude::*;

use crate::config::DeviceConfig;

verus! {

/// The decimal digit `d` (below ten).
pub open spec fn digit(d: nat) -> char {
    seq!['0', '1', '2', '3', '4', '5', '6', '7', '8', '9'][d as int]
}

/// The decimal numeral of `n`, without leading zeros.
pub open spec fn decimal(n: nat) -> Seq<char>
    decreases n,
{
    if n < 10 {
        seq![digit(n)]
    } else {
        decimal(n / 10).push(digit(n % 10))
    }
}

/// The numerals of `v`, separated by commas.
pub open spec fn comma_joined(v: Seq<u16>) -> Seq<char>
    decreases v.len(),
{
    if v.len() == 0 {
        Seq::empty()
    } else if v.len() == 1 {
        decimal(v[0] as nat)
    } else {
        comma_joined(v.drop_last()) + seq![','] + decimal(v.last() as nat)
    }
}

/// The compact JSON array of a list of register offsets.
pub open spec fn registers_to_json(v: Seq<u16>) -> Seq<char> {
    seq!['['] + comma_joined(v) + seq![']']
}

/// What serde_json reads from a JSON text as a list of register offsets,
/// or `None` where the text is not such a list.
pub uninterp spec fn registers_from_json(s: Seq<char>) -> Option<Seq<u16>>;

/// Relies on serde_json::to_string: the compact JSON array of the offsets
/// (it does not fail on a list of integers), which serde_json::from_str
/// reads back as the same list.
#[verifier::external_body]
fn encode_registers(v: &Vec<u16>) -> (r: String)
    ensures
        r@ == registers_to_json(v@),
        registers_from_json(r@) == Some(v@),
{
    serde_json::to_string(v).unwrap_or_default()
}

/// Relies on serde_json::from_str: parses a JSON array of 16-bit integers.
#[verifier::external_body]
fn decode_registers(s: &String) -> (r: Option<Vec<u16>>)
    ensures
        match r {
            Some(v) => registers_from_json(s@) == Some(v@),
            None => registers_from_json(s@) is None,
        },
{
    serde_json::from_str::<Vec<u16>>(s).ok()
}

/// A device configuration as the persistence store keeps it: integers as
/// signed 64-bit columns, the writable set as JSON text.
#[derive(Clone, Debug)]
pub struct DeviceRow {
    pub id: String,
    pub name: String,
    pub address: String,
    pub protocol: String,
    pub poll_rate_ms: i64,
    pub register_start: i64,
    pub register_count: i64,
    pub writable: String,
}

/// The stored form of `cfg`.
pub fn device_row(cfg: DeviceConfig) -> (r: DeviceRow)
    ensures
        r.id == cfg.id,
        r.name == cfg.name,
        r.address == cfg.address,
        r.protocol == cfg.protocol,
        r.poll_rate_ms == cfg.poll_rate_ms as i64,
        r.register_start == cfg.register_start as i64,
        r.register_count == cfg.register_count as i64,
        r.writable@ == registers_to_json(cfg.writable@),
        registers_from_json(r.writable@) == Some(cfg.writable@),
{
    let writable = encode_registers(&cfg.writable);
    DeviceRow {
        id: cfg.id,
        name: cfg.name,
        address: cfg.address,
        protocol: cfg.protocol,
        poll_rate_ms: cfg.poll_rate_ms as i64,
        register_start: cfg.register_start as i64,
        register_count: cfg.register_count as i64,
        writable,
    }
}

/// The configuration a stored row describes; a writable set that does not
/// parse is read as empty.
pub fn device_from_row(row: DeviceRow) -> (r: DeviceConfig)
    ensures
        r.id == row.id,
        r.name == row.name,
        r.address == row.address,
        r.protocol == row.protocol,
        r.poll_rate_ms == row.poll_rate_ms as u64,
        r.register_start == row.register_start as u16,
        r.register_count == row.register_count as u16,
        r.writable@ == (match registers_from_json(row.writable@) {
            Some(v) => v,
            None => Seq::empty(),
        }),
{
    let writable = match decode_registers(&row.writable) {
        Some(v) => v,
        None => Vec::new(),
    };
    DeviceConfig {
        id: row.id,
        name: row.name,
        address: row.address,
        protocol: row.protocol,
        poll_rate_ms: row.poll_rate_ms as u64,
        register_start: row.register_start as u16,
        register_count: row.register_count as u16,
        writable,
    }
}

/// A configuration saved as a row and loaded back is unchanged: the row
/// `device_row` makes of `cfg` gives back `cfg`'s numbers and writable set
/// under `device_from_row`.
pub proof fn lemma_saved_config_reloads(cfg: DeviceConfig, row: DeviceRow)
    requires
        row.poll_rate_ms == cfg.poll_rate_ms as i64,
        row.register_start == cfg.register_start as i64,
        row.register_count == cfg.register_count as i64,
        registers_from_json(row.writable@) == Some(cfg.writable@),
    ensures
        row.poll_rate_ms as u64 == cfg.poll_rate_ms,
        row.register_start as u16 == cfg.register_start,
        row.register_count as u16 == cfg.register_count,
        (match registers_from_json(row.writable@) {
            Some(v) => v,
            None => Seq::empty(),
        }) == cfg.writable@,
{
    let a: u64 = cfg.poll_rate_ms;
    let b: i64 = row.poll_rate_ms;
    assert(b as u64 == a) by (bit_vector)
        requires
            b == a as i64,
    ;
}

} // verus!
