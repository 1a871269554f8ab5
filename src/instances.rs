//! Instance summaries: the read model of a managed instance, its liveness taken
//! fresh at query time, and its JSON reply form.
use crate::json::{json_string_literal, string_literal};
use crate::text::comma_joined;
use vstd::prelude::*;

verus! {

/// An instance as the registry stores it.
pub struct InstanceRecord {
    pub name: String,
    pub pid: u32,
    pub socket_path: String,
    pub jail_root: String,
    pub container_id: String,
    pub ip: String,
    pub gateway: String,
    pub tap: String,
    pub vcpus: u64,
    pub memory: u64,
    pub description: String,
    pub floating_ip: Option<String>,
    pub created_at: String,
}

/// An instance as it is reported: the stored fields and whether its process
/// was alive when the query ran.
pub struct InstanceSummary {
    pub name: String,
    pub pid: u32,
    pub socket_path: String,
    pub jail_root: String,
    pub container_id: String,
    pub ip: String,
    pub gateway: String,
    pub tap: String,
    pub vcpus: u64,
    pub memory: u64,
    pub description: String,
    pub floating_ip: Option<String>,
    pub created_at: String,
    pub fc_status: bool,
}

/// The summary of a record, given whether its process is alive now.
pub open spec fn summary_of(r: InstanceRecord, alive: bool) -> InstanceSummary {
    InstanceSummary {
        name: r.name,
        pid: r.pid,
        socket_path: r.socket_path,
        jail_root: r.jail_root,
        container_id: r.container_id,
        ip: r.ip,
        gateway: r.gateway,
        tap: r.tap,
        vcpus: r.vcpus,
        memory: r.memory,
        description: r.description,
        floating_ip: r.floating_ip,
        created_at: r.created_at,
        fc_status: alive,
    }
}

/// Projects one record; the liveness flag is the one observed for this query,
/// never a stored one.
pub fn summarize(r: &InstanceRecord, alive: bool) -> (s: InstanceSummary)
    ensures
        s == summary_of(*r, alive),
{
    InstanceSummary {
        name: r.name.clone(),
        pid: r.pid,
        socket_path: r.socket_path.clone(),
        jail_root: r.jail_root.clone(),
        container_id: r.container_id.clone(),
        ip: r.ip.clone(),
        gateway: r.gateway.clone(),
        tap: r.tap.clone(),
        vcpus: r.vcpus,
        memory: r.memory,
        description: r.description.clone(),
        floating_ip: match &r.floating_ip {
            None => None,
            Some(f) => Some(f.clone()),
        },
        created_at: r.created_at.clone(),
        fc_status: alive,
    }
}

/// The summaries of all records, in the registry's order, each with the
/// liveness observed for it.
pub open spec fn summaries_of(records: Seq<InstanceRecord>, alive: Seq<bool>) -> Seq<InstanceSummary> {
    Seq::new(records.len(), |i: int| summary_of(records[i], alive[i]))
}

/// Projects every record, keeping the registry's enumeration order.
pub fn summarize_all(records: &Vec<InstanceRecord>, alive: &Vec<bool>) -> (r: Vec<InstanceSummary>)
    requires
        alive@.len() == records@.len(),
    ensures
        r@ == summaries_of(records@, alive@),
{
    let mut out: Vec<InstanceSummary> = Vec::new();
    let mut i: usize = 0;
    while i < records.len()
        invariant
            alive@.len() == records@.len(),
            i <= records@.len(),
            out@ =~= summaries_of(records@, alive@).take(i as int),
        decreases records@.len() - i,
    {
        let s = summarize(&records[i], alive[i]);
        out.push(s);
        i = i + 1;
    }
    assert(out@ =~= summaries_of(records@, alive@));
    out
}

/// Two queries over the same records differ only where liveness was observed
/// differently: a process that died between them turns its flag from true to
/// false, with no change to the registry.
pub proof fn liveness_follows_observation(
    records: Seq<InstanceRecord>,
    before: Seq<bool>,
    after: Seq<bool>,
    i: int,
)
    requires
        before.len() == records.len(),
        after.len() == records.len(),
        0 <= i < records.len(),
    ensures
        summaries_of(records, before)[i].fc_status == before[i],
        summaries_of(records, after)[i].fc_status == after[i],
        summaries_of(records, before)[i].name == summaries_of(records, after)[i].name,
        summaries_of(records, before)[i].pid == summaries_of(records, after)[i].pid,
        before[i] == after[i] ==> summaries_of(records, before)[i] == summaries_of(
            records,
            after,
        )[i],
{
}

/// The summaries come out in the registry's order: the summary at each position
/// is that of the record at the same position, however the liveness
/// observations were gathered.
pub proof fn listing_keeps_registry_order(records: Seq<InstanceRecord>, alive: Seq<bool>, i: int)
    requires
        alive.len() == records.len(),
        0 <= i < records.len(),
    ensures
        summaries_of(records, alive).len() == records.len(),
        summaries_of(records, alive)[i] == summary_of(records[i], alive[i]),
        summaries_of(records, alive)[i].name == records[i].name,
{
}

/// The character of a decimal digit.
pub open spec fn digit_char(d: nat) -> char {
    if d == 0 {
        '0'
    } else if d == 1 {
        '1'
    } else if d == 2 {
        '2'
    } else if d == 3 {
        '3'
    } else if d == 4 {
        '4'
    } else if d == 5 {
        '5'
    } else if d == 6 {
        '6'
    } else if d == 7 {
        '7'
    } else if d == 8 {
        '8'
    } else {
        '9'
    }
}

/// The decimal notation of a number, without leading zeros.
pub open spec fn decimal(n: nat) -> Seq<char>
    decreases n,
{
    if n < 10 {
        seq![digit_char(n)]
    } else {
        decimal(n / 10) + seq![digit_char(n % 10)]
    }
}

fn digit_text(d: u64) -> (r: &'static str)
    requires
        d < 10,
    ensures
        r@ == seq![digit_char(d as nat)],
{
    proof {
        reveal_strlit("0");
        reveal_strlit("1");
        reveal_strlit("2");
        reveal_strlit("3");
        reveal_strlit("4");
        reveal_strlit("5");
        reveal_strlit("6");
        reveal_strlit("7");
        reveal_strlit("8");
        reveal_strlit("9");
    }
    let r = if d == 0 {
        "0"
    } else if d == 1 {
        "1"
    } else if d == 2 {
        "2"
    } else if d == 3 {
        "3"
    } else if d == 4 {
        "4"
    } else if d == 5 {
        "5"
    } else if d == 6 {
        "6"
    } else if d == 7 {
        "7"
    } else if d == 8 {
        "8"
    } else {
        "9"
    };
    assert(r@ =~= seq![digit_char(d as nat)]);
    r
}

/// Writes a number in decimal.
pub fn decimal_text(n: u64) -> (r: String)
    ensures
        r@ == decimal(n as nat),
    decreases n,
{
    if n < 10 {
        String::from_str(digit_text(n))
    } else {
        let mut s = decimal_text(n / 10);
        s.append(digit_text(n % 10));
        s
    }
}

/// The JSON text of a boolean.
pub open spec fn bool_text(b: bool) -> Seq<char> {
    if b {
        "true"@
    } else {
        "false"@
    }
}

/// The JSON text of an optional string: `null` where there is none.
pub open spec fn optional_literal(o: Option<String>) -> Seq<char> {
    match o {
        None => "null"@,
        Some(s) => json_string_literal(s@),
    }
}

/// The JSON object that reports one instance.
pub open spec fn summary_json(s: InstanceSummary) -> Seq<char> {
    "{\"name\":"@ + json_string_literal(s.name@) + ",\"pid\":"@ + decimal(s.pid as nat)
        + ",\"socket_path\":"@ + json_string_literal(s.socket_path@) + ",\"jail_root\":"@
        + json_string_literal(s.jail_root@) + ",\"container_id\":"@ + json_string_literal(
        s.container_id@,
    ) + ",\"ip\":"@ + json_string_literal(s.ip@) + ",\"gateway\":"@ + json_string_literal(
        s.gateway@,
    ) + ",\"tap\":"@ + json_string_literal(s.tap@) + ",\"vcpus\":"@ + decimal(s.vcpus as nat)
        + ",\"memory\":"@ + decimal(s.memory as nat) + ",\"description\":"@ + json_string_literal(
        s.description@,
    ) + ",\"floating_ip\":"@ + optional_literal(s.floating_ip) + ",\"created_at\":"@
        + json_string_literal(s.created_at@) + ",\"fc_status\":"@ + bool_text(s.fc_status) + "}"@
}

/// A JSON array of the given item texts.
pub open spec fn json_array(items: Seq<Seq<char>>) -> Seq<char> {
    "["@ + comma_joined(items) + "]"@
}

/// The JSON array that reports a list of instances, in list order.
pub open spec fn summaries_json(list: Seq<InstanceSummary>) -> Seq<char> {
    json_array(list.map_values(|s: InstanceSummary| summary_json(s)))
}

fn append_literal(out: &mut String, value: &str)
    ensures
        final(out)@ == old(out)@ + json_string_literal(value@),
{
    let t = string_literal(value).unwrap();
    out.append(t.as_str());
}

fn append_decimal(out: &mut String, n: u64)
    ensures
        final(out)@ == old(out)@ + decimal(n as nat),
{
    let t = decimal_text(n);
    out.append(t.as_str());
}

/// Writes the JSON object that reports one instance.
pub fn encode_summary(s: &InstanceSummary) -> (r: String)
    ensures
        r@ == summary_json(*s),
{
    let mut out = String::from_str("{\"name\":");
    append_literal(&mut out, s.name.as_str());
    out.append(",\"pid\":");
    append_decimal(&mut out, s.pid as u64);
    out.append(",\"socket_path\":");
    append_literal(&mut out, s.socket_path.as_str());
    out.append(",\"jail_root\":");
    append_literal(&mut out, s.jail_root.as_str());
    out.append(",\"container_id\":");
    append_literal(&mut out, s.container_id.as_str());
    out.append(",\"ip\":");
    append_literal(&mut out, s.ip.as_str());
    out.append(",\"gateway\":");
    append_literal(&mut out, s.gateway.as_str());
    out.append(",\"tap\":");
    append_literal(&mut out, s.tap.as_str());
    out.append(",\"vcpus\":");
    append_decimal(&mut out, s.vcpus);
    out.append(",\"memory\":");
    append_decimal(&mut out, s.memory);
    out.append(",\"description\":");
    append_literal(&mut out, s.description.as_str());
    out.append(",\"floating_ip\":");
    match &s.floating_ip {
        None => out.append("null"),
        Some(f) => append_literal(&mut out, f.as_str()),
    }
    out.append(",\"created_at\":");
    append_literal(&mut out, s.created_at.as_str());
    out.append(",\"fc_status\":");
    if s.fc_status {
        out.append("true");
    } else {
        out.append("false");
    }
    out.append("}");
    out
}

/// Writes the JSON array that reports a list of instances, in list order. An
/// empty list is written `[]`.
pub fn encode_summaries(list: &Vec<InstanceSummary>) -> (r: String)
    ensures
        r@ == summaries_json(list@),
        list@.len() == 0 ==> r@ == "[]"@,
{
    let ghost items = list@.map_values(|s: InstanceSummary| summary_json(s));
    let mut out = String::from_str("[");
    let mut i: usize = 0;
    while i < list.len()
        invariant
            i <= list@.len(),
            items == list@.map_values(|s: InstanceSummary| summary_json(s)),
            out@ == "["@ + comma_joined(items.take(i as int)),
        decreases list@.len() - i,
    {
        let t = encode_summary(&list[i]);
        proof {
            let next = items.take(i + 1);
            assert(next.drop_last() =~= items.take(i as int));
            assert(next.last() == t@);
        }
        if i > 0 {
            out.append(",");
        }
        out.append(t.as_str());
        proof {
            let next = items.take(i + 1);
            if i == 0 {
                assert(comma_joined(items.take(0)) =~= Seq::<char>::empty());
                assert(out@ =~= "["@ + comma_joined(next));
            } else {
                assert(out@ =~= "["@ + comma_joined(next));
            }
        }
        i = i + 1;
    }
    assert(items.take(list@.len() as int) =~= items);
    out.append("]");
    proof {
        reveal_strlit("[");
        reveal_strlit("]");
        reveal_strlit("[]");
        if list@.len() == 0 {
            assert(out@ =~= "[]"@);
        }
    }
    out
}

} // verus!
