//! What the build server is asked: endpoints, query parameters, and which
//! configuration paths and user names a batch of builds still needs.
use vstd::prelude::*;
use vstd::string::StringExecFns;
use crate::record::Build;
use crate::text::{signed_decimal, signed_decimal_string};

verus! {

/// The notifier type under which the server keeps the tray monitor's alerts.
pub const TRAY_MONITOR_NOTIFICATION_TYPE: &'static str = "Tray Monitor & IDE Plugins";
pub const BUILDS_ENDPOINT: &'static str = "rest/notifications";
pub const ALERTS_ENDPOINT: &'static str = "rest/notifications/alerts";

/// One `name=value` pair of a query string.
pub struct QueryParam {
    pub name: String,
    pub value: String,
}

impl DeepView for QueryParam {
    type V = (Seq<char>, Seq<char>);

    open spec fn deep_view(&self) -> (Seq<char>, Seq<char>) {
        (self.name@, self.value@)
    }
}

/// The full address of an endpoint on `host`.
pub fn endpoint_url(host: &str, path: &str) -> (r: String)
    ensures
        r@ == host@ + "/"@ + path@,
{
    String::from_str(host).concat("/").concat(path)
}

/// The endpoint giving the path of configuration `id`.
pub fn configuration_path_endpoint(id: i64) -> (r: String)
    ensures
        r@ == "rest/configurations/"@ + signed_decimal(id as int) + "/path"@,
{
    let n = signed_decimal_string(id);
    String::from_str("rest/configurations/").concat(n.as_str()).concat("/path")
}

/// The endpoint giving the display name of user `id`.
pub fn user_display_name_endpoint(id: i64) -> (r: String)
    ensures
        r@ == "rest/users/"@ + signed_decimal(id as int) + "/display_name"@,
{
    let n = signed_decimal_string(id);
    String::from_str("rest/users/").concat(n.as_str()).concat("/display_name")
}

/// The query for builds: only those after the cursor, when there is one.
pub open spec fn builds_query_spec(last_notified_build_id: Option<i64>) -> Seq<(Seq<char>, Seq<char>)> {
    match last_notified_build_id {
        Some(id) => seq![("last_notified_build_id"@, signed_decimal(id as int))],
        None => Seq::empty(),
    }
}

/// The query for alerts: those for this notifier type, and only those after
/// the cursor when it is a positive time.
pub open spec fn alerts_query_spec(last_notified_time: Option<i64>) -> Seq<(Seq<char>, Seq<char>)> {
    let base = seq![("notifier_type"@, TRAY_MONITOR_NOTIFICATION_TYPE@)];
    match last_notified_time {
        Some(t) => if t > 0 {
            base.push(("last_notified_time"@, signed_decimal(t as int)))
        } else {
            base
        },
        None => base,
    }
}

pub fn builds_query(last_notified_build_id: Option<i64>) -> (r: Vec<QueryParam>)
    ensures
        r.deep_view() == builds_query_spec(last_notified_build_id),
{
    let mut q: Vec<QueryParam> = Vec::new();
    if let Some(id) = last_notified_build_id {
        q.push(
            QueryParam {
                name: String::from_str("last_notified_build_id"),
                value: signed_decimal_string(id),
            },
        );
    }
    assert(q.deep_view() =~= builds_query_spec(last_notified_build_id));
    q
}

pub fn alerts_query(last_notified_time: Option<i64>) -> (r: Vec<QueryParam>)
    ensures
        r.deep_view() == alerts_query_spec(last_notified_time),
{
    let mut q: Vec<QueryParam> = Vec::new();
    q.push(
        QueryParam {
            name: String::from_str("notifier_type"),
            value: String::from_str(TRAY_MONITOR_NOTIFICATION_TYPE),
        },
    );
    if let Some(t) = last_notified_time {
        if t > 0 {
            q.push(
                QueryParam {
                    name: String::from_str("last_notified_time"),
                    value: signed_decimal_string(t),
                },
            );
        }
    }
    assert(q.deep_view() =~= alerts_query_spec(last_notified_time));
    q
}

/// The distinct values of `s`, each where it first occurs.
pub open spec fn distinct_values(s: Seq<i64>) -> Seq<i64>
    decreases s.len(),
{
    if s.len() == 0 {
        Seq::empty()
    } else if distinct_values(s.drop_last()).contains(s.last()) {
        distinct_values(s.drop_last())
    } else {
        distinct_values(s.drop_last()).push(s.last())
    }
}

pub open spec fn configurations_of(builds: Seq<Build>) -> Seq<i64> {
    builds.map_values(|b: Build| b.configuration)
}

pub open spec fn requesters_of(builds: Seq<Build>) -> Seq<i64> {
    builds.map_values(|b: Build| b.requester)
}

/// The distinct values of `ids`, in order of first occurrence.
pub fn distinct_ids(ids: &Vec<i64>) -> (r: Vec<i64>)
    ensures
        r@ == distinct_values(ids@),
{
    let mut out: Vec<i64> = Vec::new();
    let mut i: usize = 0;
    while i < ids.len()
        invariant
            i <= ids.len(),
            out@ == distinct_values(ids@.subrange(0, i as int)),
        decreases ids.len() - i,
    {
        let x = ids[i];
        let mut j: usize = 0;
        let mut seen = false;
        while j < out.len()
            invariant
                j <= out.len(),
                seen == out@.subrange(0, j as int).contains(x),
            decreases out.len() - j,
        {
            if out[j] == x {
                seen = true;
            }
            proof {
                let t = out@.subrange(0, j as int + 1);
                if out@[j as int] == x {
                    assert(t[j as int] == x);
                }
                if out@.subrange(0, j as int).contains(x) {
                    let k = choose|k: int| 0 <= k < j && out@.subrange(0, j as int)[k] == x;
                    assert(t[k] == x);
                }
                if t.contains(x) {
                    let k = choose|k: int| 0 <= k < j + 1 && t[k] == x;
                    if k < j {
                        assert(out@.subrange(0, j as int)[k] == x);
                    }
                }
            }
            j += 1;
        }
        assert(out@.subrange(0, out@.len() as int) =~= out@);
        assert(ids@.subrange(0, i as int + 1).drop_last() =~= ids@.subrange(0, i as int));
        if !seen {
            out.push(x);
        }
        i += 1;
    }
    assert(ids@.subrange(0, ids@.len() as int) =~= ids@);
    out
}

/// The configurations whose paths a batch of builds needs, each once.
pub fn configurations_to_fetch(builds: &Vec<Build>) -> (r: Vec<i64>)
    ensures
        r@ == distinct_values(configurations_of(builds@)),
{
    let mut ids: Vec<i64> = Vec::new();
    let mut i: usize = 0;
    while i < builds.len()
        invariant
            i <= builds.len(),
            ids@ == configurations_of(builds@.subrange(0, i as int)),
        decreases builds.len() - i,
    {
        ids.push(builds[i].configuration);
        i += 1;
        assert(ids@ =~= configurations_of(builds@.subrange(0, i as int)));
    }
    assert(builds@.subrange(0, i as int) =~= builds@);
    distinct_ids(&ids)
}

/// The requesters whose names a batch of builds needs, each once.
pub fn requesters_to_fetch(builds: &Vec<Build>) -> (r: Vec<i64>)
    ensures
        r@ == distinct_values(requesters_of(builds@)),
{
    let mut ids: Vec<i64> = Vec::new();
    let mut i: usize = 0;
    while i < builds.len()
        invariant
            i <= builds.len(),
            ids@ == requesters_of(builds@.subrange(0, i as int)),
        decreases builds.len() - i,
    {
        ids.push(builds[i].requester);
        i += 1;
        assert(ids@ =~= requesters_of(builds@.subrange(0, i as int)));
    }
    assert(builds@.subrange(0, i as int) =~= builds@);
    distinct_ids(&ids)
}

/// A value the server gave for an id: a configuration's path or a user's
/// display name.
pub struct Detail {
    pub id: i64,
    pub text: String,
}

impl DeepView for Detail {
    type V = (i64, Seq<char>);

    open spec fn deep_view(&self) -> (i64, Seq<char>) {
        (self.id, self.text@)
    }
}

/// The text given for `k`: that of the first pair with this id.
pub open spec fn lookup(pairs: Seq<(i64, Seq<char>)>, k: i64) -> Option<Seq<char>>
    decreases pairs.len(),
{
    if pairs.len() == 0 {
        None
    } else if pairs[0].0 == k {
        Some(pairs[0].1)
    } else {
        lookup(pairs.drop_first(), k)
    }
}

/// `b` is `a` with the configuration path and requester name taken from the
/// details where they give one.
pub open spec fn detailed(
    a: Build,
    b: Build,
    paths: Seq<(i64, Seq<char>)>,
    names: Seq<(i64, Seq<char>)>,
) -> bool {
    &&& b.configuration_path@ == match lookup(paths, a.configuration) {
        Some(p) => p,
        None => a.configuration_path@,
    }
    &&& b.requester_name.deep_view() == match lookup(names, a.requester) {
        Some(n) => Some(n),
        None => a.requester_name.deep_view(),
    }
    &&& b.id == a.id
    &&& b.configuration == a.configuration
    &&& b.master_node_address == a.master_node_address
    &&& b.requester == a.requester
    &&& b.canceller == a.canceller
    &&& b.canceller_name == a.canceller_name
    &&& b.version == a.version
    &&& b.status == a.status
    &&& b.begin_date == a.begin_date
    &&& b.status_date == a.status_date
    &&& b.duration == a.duration
    &&& b.wait_duration == a.wait_duration
}

/// The text given for `k`, if any.
pub fn find_detail(pairs: &Vec<Detail>, k: i64) -> (r: Option<String>)
    ensures
        r.deep_view() == lookup(pairs.deep_view(), k),
{
    let ghost all = pairs.deep_view();
    assert(all.subrange(0, all.len() as int) =~= all);
    let mut i: usize = 0;
    while i < pairs.len()
        invariant
            i <= pairs.len(),
            all == pairs.deep_view(),
            lookup(all, k) == lookup(all.subrange(i as int, all.len() as int), k),
        decreases pairs.len() - i,
    {
        let ghost rest = all.subrange(i as int, all.len() as int);
        assert(rest[0] == pairs@[i as int].deep_view());
        assert(rest.drop_first() =~= all.subrange(i + 1, all.len() as int));
        if pairs[i].id == k {
            return Some(pairs[i].text.clone());
        }
        i += 1;
    }
    assert(all.subrange(i as int, all.len() as int).len() == 0);
    None
}

/// Fills in each build's configuration path and requester name from what the
/// server gave; a build whose id has no detail keeps its own.
pub fn attach_details(builds: Vec<Build>, paths: &Vec<Detail>, names: &Vec<Detail>) -> (r: Vec<Build>)
    ensures
        r@.len() == builds@.len(),
        forall|i: int|
            0 <= i < builds@.len() ==> detailed(
                #[trigger] builds@[i],
                r@[i],
                paths.deep_view(),
                names.deep_view(),
            ),
{
    let ghost all = builds@;
    let mut rest = builds;
    let mut out: Vec<Build> = Vec::new();
    while rest.len() > 0
        invariant
            out@.len() + rest@.len() == all.len(),
            rest@ == all.subrange(out@.len() as int, all.len() as int),
            forall|i: int|
                0 <= i < out@.len() ==> detailed(
                    #[trigger] all[i],
                    out@[i],
                    paths.deep_view(),
                    names.deep_view(),
                ),
        decreases rest.len(),
    {
        let ghost n = out@.len() as int;
        let mut b = rest.remove(0);
        assert(b == all[n]);
        assert(rest@ =~= all.subrange(n + 1, all.len() as int));
        match find_detail(paths, b.configuration) {
            Some(p) => b.configuration_path = p,
            None => {},
        }
        match find_detail(names, b.requester) {
            Some(name) => b.requester_name = Some(name),
            None => {},
        }
        out.push(b);
    }
    out
}

} // verus!
