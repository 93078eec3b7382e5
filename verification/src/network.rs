//! `nude network ls` and `nude network inspect`: networks as rows, and completions for their names
//! and IDs.
use vstd::prelude::*;

use crate::fields::{
    field, opt_bool, opt_bool_model, opt_rfc3339, opt_rfc3339_model, opt_short_id_model,
    opt_str_model, short_id_opt, str_map, str_map_model, str_opt, Pair,
};
use crate::fields::rfc3339_instant;
use crate::value::{cell_named, names_of, Field, Val, ValV};

verus! {

/// A network as the daemon lists it.
pub struct NetworkSummary {
    pub name: Option<String>,
    pub id: Option<String>,
    pub driver: Option<String>,
    pub scope: Option<String>,
    pub internal: Option<bool>,
    /// RFC 3339.
    pub created: Option<String>,
    pub labels: Option<Vec<Pair>>,
}

/// One address pool of a network.
pub struct IpamConfig {
    pub subnet: Option<String>,
    pub gateway: Option<String>,
    pub ip_range: Option<String>,
}

/// How a network hands out addresses.
pub struct Ipam {
    pub driver: Option<String>,
    pub config: Option<Vec<IpamConfig>>,
}

/// A container attached to a network.
pub struct Endpoint {
    pub name: Option<String>,
    pub ipv4_address: Option<String>,
    pub ipv6_address: Option<String>,
    pub mac_address: Option<String>,
}

/// A network as the daemon describes it when inspected.
pub struct NetworkDetail {
    pub name: Option<String>,
    pub id: Option<String>,
    pub driver: Option<String>,
    pub scope: Option<String>,
    pub internal: Option<bool>,
    pub attachable: Option<bool>,
    pub ingress: Option<bool>,
    /// RFC 3339.
    pub created: Option<String>,
    pub ipam: Option<Ipam>,
    pub options: Option<Vec<Pair>>,
    pub containers: Option<Vec<Endpoint>>,
    pub labels: Option<Vec<Pair>>,
}

/// Extra columns that the user asked for.
#[derive(Clone, Copy)]
pub struct Decorators {
    /// `--show-labels`: add a `labels` column.
    pub show_labels: bool,
}

pub open spec fn labels_part(d: Decorators, labels: Option<Vec<Pair>>) -> Seq<(Seq<char>, ValV)> {
    if d.show_labels {
        seq![("labels"@, str_map_model(labels))]
    } else {
        Seq::empty()
    }
}

pub open spec fn fields_model(fs: Seq<Field>) -> Seq<(Seq<char>, ValV)> {
    fs.map_values(|f: Field| (f.name@, f.value.model()))
}

proof fn lemma_record_model(fs: Vec<Field>)
    ensures
        Val::Record(fs).model()->Record_0 == fields_model(fs@),
{
    assert(Val::Record(fs).model()->Record_0 =~= fields_model(fs@));
}

impl Decorators {
    /// Adds the `labels` column when asked for.
    pub fn apply_labels(&self, rec: &mut Vec<Field>, labels: &Option<Vec<Pair>>)
        ensures
            fields_model(final(rec)@) == fields_model(old(rec)@) + labels_part(*self, *labels),
    {
        let ghost before = rec@;
        if self.show_labels {
            rec.push(field("labels", str_map(labels)));
            proof {
                assert(fields_model(rec@) =~= fields_model(before) + labels_part(*self, *labels));
            }
        } else {
            proof {
                assert(fields_model(rec@) =~= fields_model(before) + labels_part(*self, *labels));
            }
        }
    }
}

/// A listed network in compact form: flat, primitive cells.
pub open spec fn compact_model(n: &NetworkSummary, d: Decorators) -> ValV {
    ValV::Record(
        seq![
            ("name"@, opt_str_model(n.name)),
            ("id"@, opt_short_id_model(n.id)),
            ("driver"@, opt_str_model(n.driver)),
            ("scope"@, opt_str_model(n.scope)),
            ("internal"@, opt_bool_model(n.internal)),
            ("created"@, opt_rfc3339_model(n.created)),
        ] + labels_part(d, n.labels),
    )
}

pub fn compact(n: &NetworkSummary, d: Decorators) -> (v: Val)
    ensures
        v.model() == compact_model(n, d),
{
    let mut rec: Vec<Field> = Vec::new();
    rec.push(field("name", str_opt(&n.name)));
    rec.push(field("id", short_id_opt(&n.id)));
    rec.push(field("driver", str_opt(&n.driver)));
    rec.push(field("scope", str_opt(&n.scope)));
    rec.push(field("internal", opt_bool(n.internal)));
    rec.push(field("created", opt_rfc3339(&n.created)));
    let ghost base = rec@;
    proof {
        assert(fields_model(base) =~= compact_model(n, Decorators { show_labels: false })->Record_0);
    }
    d.apply_labels(&mut rec, &n.labels);
    let v = Val::Record(rec);
    proof {
        lemma_record_model(rec);
        assert(v.model()->Record_0 =~= compact_model(n, d)->Record_0);
    }
    v
}

pub open spec fn ipam_config_model(c: IpamConfig) -> ValV {
    ValV::Record(
        seq![
            ("subnet"@, opt_str_model(c.subnet)),
            ("gateway"@, opt_str_model(c.gateway)),
            ("ip_range"@, opt_str_model(c.ip_range)),
        ],
    )
}

/// The address management of a network: its driver and pools; nothing where the network has
/// none, and an empty pool list where it names none.
pub open spec fn ipam_model(ipam: Option<Ipam>) -> ValV {
    match ipam {
        None => ValV::Nothing,
        Some(i) => ValV::Record(
            seq![
                ("driver"@, opt_str_model(i.driver)),
                (
                    "config"@,
                    ValV::List(
                        match i.config {
                            Some(cs) => Seq::new(cs@.len(), |q: int| ipam_config_model(cs@[q])),
                            None => Seq::empty(),
                        },
                    ),
                ),
            ],
        ),
    }
}

fn ipam_config_value(c: &IpamConfig) -> (v: Val)
    ensures
        v.model() == ipam_config_model(*c),
{
    let mut r: Vec<Field> = Vec::new();
    r.push(field("subnet", str_opt(&c.subnet)));
    r.push(field("gateway", str_opt(&c.gateway)));
    r.push(field("ip_range", str_opt(&c.ip_range)));
    let v = Val::Record(r);
    proof {
        lemma_record_model(r);
        assert(v.model()->Record_0 =~= ipam_config_model(*c)->Record_0);
    }
    v
}

pub fn ipam_value(n: &NetworkDetail) -> (v: Val)
    ensures
        v.model() == ipam_model(n.ipam),
{
    let ipam = match &n.ipam {
        None => {
            return Val::Nothing;
        },
        Some(i) => i,
    };
    let mut configs: Vec<Val> = Vec::new();
    match &ipam.config {
        None => {},
        Some(cs) => {
            let mut i: usize = 0;
            while i < cs.len()
                invariant
                    i <= cs@.len(),
                    configs@.len() == i,
                    forall|q: int|
                        0 <= q < i ==> (#[trigger] configs@[q]).model() == ipam_config_model(cs@[q]),
                decreases cs@.len() - i,
            {
                configs.push(ipam_config_value(&cs[i]));
                i = i + 1;
            }
        },
    }
    let config_list = Val::List(configs);
    proof {
        let expected = ipam_model(n.ipam)->Record_0[1].1->List_0;
        assert forall|q: int| 0 <= q < expected.len() implies config_list.model()->List_0[q]
            == expected[q] by {
            assert(config_list.model()->List_0[q] == configs@[q].model());
        }
        assert(config_list.model()->List_0 =~= expected);
    }
    let mut rec: Vec<Field> = Vec::new();
    rec.push(field("driver", str_opt(&ipam.driver)));
    rec.push(field("config", config_list));
    let v = Val::Record(rec);
    proof {
        lemma_record_model(rec);
        assert(v.model()->Record_0 =~= ipam_model(n.ipam)->Record_0);
    }
    v
}

pub open spec fn endpoint_model(e: Endpoint) -> ValV {
    ValV::Record(
        seq![
            ("name"@, opt_str_model(e.name)),
            ("ipv4"@, opt_str_model(e.ipv4_address)),
            ("ipv6"@, opt_str_model(e.ipv6_address)),
            ("mac"@, opt_str_model(e.mac_address)),
        ],
    )
}

/// The containers attached to a network; an empty list where the daemon names none.
pub open spec fn containers_model(cs: Option<Vec<Endpoint>>) -> ValV {
    ValV::List(
        match cs {
            Some(es) => Seq::new(es@.len(), |q: int| endpoint_model(es@[q])),
            None => Seq::empty(),
        },
    )
}

fn endpoint_value(e: &Endpoint) -> (v: Val)
    ensures
        v.model() == endpoint_model(*e),
{
    let mut r: Vec<Field> = Vec::new();
    r.push(field("name", str_opt(&e.name)));
    r.push(field("ipv4", str_opt(&e.ipv4_address)));
    r.push(field("ipv6", str_opt(&e.ipv6_address)));
    r.push(field("mac", str_opt(&e.mac_address)));
    let v = Val::Record(r);
    proof {
        lemma_record_model(r);
        assert(v.model()->Record_0 =~= endpoint_model(*e)->Record_0);
    }
    v
}

pub fn containers_value(n: &NetworkDetail) -> (v: Val)
    ensures
        v.model() == containers_model(n.containers),
{
    let mut rows: Vec<Val> = Vec::new();
    match &n.containers {
        None => {},
        Some(es) => {
            let mut i: usize = 0;
            while i < es.len()
                invariant
                    i <= es@.len(),
                    rows@.len() == i,
                    forall|q: int| 0 <= q < i ==> (#[trigger] rows@[q]).model() == endpoint_model(es@[q]),
                decreases es@.len() - i,
            {
                rows.push(endpoint_value(&es[i]));
                i = i + 1;
            }
        },
    }
    let v = Val::List(rows);
    proof {
        let expected = containers_model(n.containers)->List_0;
        assert forall|q: int| 0 <= q < expected.len() implies v.model()->List_0[q] == expected[q] by {
            assert(v.model()->List_0[q] == rows@[q].model());
        }
        assert(v.model()->List_0 =~= expected);
    }
    v
}

/// An inspected network in wide form: everything of the compact form and whether it is
/// attachable or an ingress, its address management, driver options and attached containers.
pub open spec fn wide_model(n: &NetworkDetail, d: Decorators) -> ValV {
    ValV::Record(
        seq![
            ("name"@, opt_str_model(n.name)),
            ("id"@, opt_short_id_model(n.id)),
            ("driver"@, opt_str_model(n.driver)),
            ("scope"@, opt_str_model(n.scope)),
            ("internal"@, opt_bool_model(n.internal)),
            ("attachable"@, opt_bool_model(n.attachable)),
            ("ingress"@, opt_bool_model(n.ingress)),
            ("created"@, opt_rfc3339_model(n.created)),
            ("ipam"@, ipam_model(n.ipam)),
            ("options"@, str_map_model(n.options)),
            ("containers"@, containers_model(n.containers)),
        ] + labels_part(d, n.labels),
    )
}

pub fn wide(n: &NetworkDetail, d: Decorators) -> (v: Val)
    ensures
        v.model() == wide_model(n, d),
{
    let mut rec: Vec<Field> = Vec::new();
    rec.push(field("name", str_opt(&n.name)));
    rec.push(field("id", short_id_opt(&n.id)));
    rec.push(field("driver", str_opt(&n.driver)));
    rec.push(field("scope", str_opt(&n.scope)));
    rec.push(field("internal", opt_bool(n.internal)));
    rec.push(field("attachable", opt_bool(n.attachable)));
    rec.push(field("ingress", opt_bool(n.ingress)));
    rec.push(field("created", opt_rfc3339(&n.created)));
    rec.push(field("ipam", ipam_value(n)));
    rec.push(field("options", str_map(&n.options)));
    rec.push(field("containers", containers_value(n)));
    let ghost base = rec@;
    proof {
        assert(fields_model(base) =~= wide_model(n, Decorators { show_labels: false })->Record_0);
    }
    d.apply_labels(&mut rec, &n.labels);
    let v = Val::Record(rec);
    proof {
        lemma_record_model(rec);
        assert(v.model()->Record_0 =~= wide_model(n, d)->Record_0);
    }
    v
}

/// The compact table of listed networks.
pub open spec fn compact_table_model(nets: Seq<NetworkSummary>, d: Decorators) -> ValV {
    ValV::List(Seq::new(nets.len(), |i: int| compact_model(&nets[i], d)))
}

pub fn compact_table(nets: &Vec<NetworkSummary>, d: Decorators) -> (v: Val)
    ensures
        v.model() == compact_table_model(nets@, d),
        v.model() is List,
        v.model()->List_0.len() == nets@.len(),
        forall|i: int| 0 <= i < nets@.len() ==> #[trigger] v.model()->List_0[i] == compact_model(&nets@[i], d),
{
    let mut rows: Vec<Val> = Vec::new();
    let mut i: usize = 0;
    while i < nets.len()
        invariant
            i <= nets@.len(),
            rows@.len() == i,
            forall|q: int| 0 <= q < i ==> (#[trigger] rows@[q]).model() == compact_model(&nets@[q], d),
        decreases nets@.len() - i,
    {
        rows.push(compact(&nets[i], d));
        i = i + 1;
    }
    let v = Val::List(rows);
    proof {
        assert forall|q: int| 0 <= q < nets@.len() implies #[trigger] v.model()->List_0[q]
            == compact_model(&nets@[q], d) by {
            assert(v.model()->List_0[q] == rows@[q].model());
        }
        assert(v.model()->List_0 =~= compact_table_model(nets@, d)->List_0);
    }
    v
}

/// The wide rows of the inspections that succeeded, in order; a failed inspection (`None`) gives
/// no row.
pub open spec fn wide_rows(nets: Seq<Option<NetworkDetail>>, d: Decorators) -> Seq<ValV>
    decreases nets.len(),
{
    if nets.len() == 0 {
        Seq::empty()
    } else {
        let before = wide_rows(nets.drop_last(), d);
        match nets.last() {
            Some(n) => before.push(wide_model(&n, d)),
            None => before,
        }
    }
}

/// The wide table of the inspected networks: one row per inspection that succeeded, in order.
pub fn wide_table(nets: &Vec<Option<NetworkDetail>>, d: Decorators) -> (v: Val)
    ensures
        v.model() == ValV::List(wide_rows(nets@, d)),
{
    let mut rows: Vec<Val> = Vec::new();
    let mut i: usize = 0;
    while i < nets.len()
        invariant
            i <= nets@.len(),
            rows@.len() == wide_rows(nets@.take(i as int), d).len(),
            forall|q: int|
                0 <= q < rows@.len() ==> (#[trigger] rows@[q]).model() == wide_rows(
                    nets@.take(i as int),
                    d,
                )[q],
        decreases nets@.len() - i,
    {
        proof {
            assert(nets@.take(i + 1).drop_last() =~= nets@.take(i as int));
            assert(nets@.take(i + 1).last() == nets@[i as int]);
        }
        match &nets[i] {
            Some(n) => {
                rows.push(wide(n, d));
            },
            None => {},
        }
        i = i + 1;
    }
    let v = Val::List(rows);
    proof {
        assert(nets@.take(nets@.len() as int) =~= nets@);
        assert(v.model()->List_0 =~= wide_rows(nets@, d));
    }
    v
}

pub open spec fn opt_view(o: Option<String>) -> Option<Seq<char>> {
    match o {
        Some(s) => Some(s@),
        None => None,
    }
}

/// The IDs of the listed networks that have one, in order: the networks to inspect for the wide
/// and full forms.
pub open spec fn ids_model(nets: Seq<NetworkSummary>) -> Seq<Seq<char>>
    decreases nets.len(),
{
    if nets.len() == 0 {
        Seq::empty()
    } else {
        let before = ids_model(nets.drop_last());
        match nets.last().id {
            Some(id) => before.push(id@),
            None => before,
        }
    }
}

pub fn network_ids(nets: &Vec<NetworkSummary>) -> (r: Vec<String>)
    ensures
        r@.map_values(|s: String| s@) == ids_model(nets@),
{
    let mut out: Vec<String> = Vec::new();
    let mut i: usize = 0;
    while i < nets.len()
        invariant
            i <= nets@.len(),
            out@.map_values(|s: String| s@) == ids_model(nets@.take(i as int)),
        decreases nets@.len() - i,
    {
        let ghost before = out@;
        proof {
            assert(nets@.take(i + 1).drop_last() =~= nets@.take(i as int));
            assert(nets@.take(i + 1).last() == nets@[i as int]);
        }
        match &nets[i].id {
            Some(id) => {
                out.push(id.clone());
                proof {
                    assert(out@.map_values(|s: String| s@) =~= before.map_values(|s: String| s@).push(
                        id@,
                    ));
                }
            },
            None => {},
        }
        i = i + 1;
    }
    proof {
        assert(nets@.take(nets@.len() as int) =~= nets@);
    }
    out
}

/// A completion offered to the shell: the value and what it stands for.
pub struct Suggestion {
    pub value: String,
    pub description: Option<String>,
}

pub open spec fn suggestions_view(s: Seq<Suggestion>) -> Seq<(Seq<char>, Option<Seq<char>>)> {
    s.map_values(|x: Suggestion| (x.value@, opt_view(x.description)))
}

/// Completions by name: each network that has a name, described by its driver.
pub open spec fn name_suggestions_model(nets: Seq<NetworkSummary>) -> Seq<
    (Seq<char>, Option<Seq<char>>),
>
    decreases nets.len(),
{
    if nets.len() == 0 {
        Seq::empty()
    } else {
        let before = name_suggestions_model(nets.drop_last());
        match nets.last().name {
            Some(name) => before.push((name@, opt_view(nets.last().driver))),
            None => before,
        }
    }
}

/// Completions by ID: each network that has an ID, described by its name.
pub open spec fn id_suggestions_model(nets: Seq<NetworkSummary>) -> Seq<
    (Seq<char>, Option<Seq<char>>),
>
    decreases nets.len(),
{
    if nets.len() == 0 {
        Seq::empty()
    } else {
        let before = id_suggestions_model(nets.drop_last());
        match nets.last().id {
            Some(id) => before.push((id@, opt_view(nets.last().name))),
            None => before,
        }
    }
}

fn clone_opt(o: &Option<String>) -> (r: Option<String>)
    ensures
        opt_view(r) == opt_view(*o),
{
    match o {
        Some(s) => Some(s.clone()),
        None => None,
    }
}

pub fn name_suggestions(nets: &Vec<NetworkSummary>) -> (r: Vec<Suggestion>)
    ensures
        suggestions_view(r@) == name_suggestions_model(nets@),
{
    let mut out: Vec<Suggestion> = Vec::new();
    let mut i: usize = 0;
    while i < nets.len()
        invariant
            i <= nets@.len(),
            suggestions_view(out@) == name_suggestions_model(nets@.take(i as int)),
        decreases nets@.len() - i,
    {
        let ghost before = out@;
        proof {
            assert(nets@.take(i + 1).drop_last() =~= nets@.take(i as int));
            assert(nets@.take(i + 1).last() == nets@[i as int]);
        }
        match &nets[i].name {
            Some(name) => {
                let s = Suggestion { value: name.clone(), description: clone_opt(&nets[i].driver) };
                out.push(s);
                proof {
                    assert(suggestions_view(out@) =~= suggestions_view(before).push(
                        (s.value@, opt_view(s.description)),
                    ));
                }
            },
            None => {},
        }
        i = i + 1;
    }
    proof {
        assert(nets@.take(nets@.len() as int) =~= nets@);
    }
    out
}

pub fn id_suggestions(nets: &Vec<NetworkSummary>) -> (r: Vec<Suggestion>)
    ensures
        suggestions_view(r@) == id_suggestions_model(nets@),
{
    let mut out: Vec<Suggestion> = Vec::new();
    let mut i: usize = 0;
    while i < nets.len()
        invariant
            i <= nets@.len(),
            suggestions_view(out@) == id_suggestions_model(nets@.take(i as int)),
        decreases nets@.len() - i,
    {
        let ghost before = out@;
        proof {
            assert(nets@.take(i + 1).drop_last() =~= nets@.take(i as int));
            assert(nets@.take(i + 1).last() == nets@[i as int]);
        }
        match &nets[i].id {
            Some(id) => {
                let s = Suggestion { value: id.clone(), description: clone_opt(&nets[i].name) };
                out.push(s);
                proof {
                    assert(suggestions_view(out@) =~= suggestions_view(before).push(
                        (s.value@, opt_view(s.description)),
                    ));
                }
            },
            None => {},
        }
        i = i + 1;
    }
    proof {
        assert(nets@.take(nets@.len() as int) =~= nets@);
    }
    out
}

/// Without the labels column, compact network rows hold primitive cells only.
pub proof fn law_compact_network_is_primitive(n: &NetworkSummary, i: int)
    requires
        0 <= i < compact_model(n, Decorators { show_labels: false })->Record_0.len(),
    ensures
        compact_model(n, Decorators { show_labels: false })->Record_0[i].1.is_primitive(),
{
    let r = compact_model(n, Decorators { show_labels: false })->Record_0;
    assert(r.len() == 6);
}

/// A listed network's compact row holds, under these names and in this order, its name, its ID
/// cut to twelve characters, its driver, its scope, whether it is internal, when it was created,
/// and, when asked for, its labels; each absent field is nothing.
pub proof fn law_compact_cells(n: &NetworkSummary, d: Decorators)
    ensures
        ({
            let row = compact_model(n, d)->Record_0;
            &&& names_of(row) == seq!["name"@, "id"@, "driver"@, "scope"@, "internal"@, "created"@]
                + (if d.show_labels {
                seq!["labels"@]
            } else {
                Seq::empty()
            })
            &&& cell_named(row, "name"@) == Some(
                match n.name {
                    Some(s) => ValV::Str(s@),
                    None => ValV::Nothing,
                },
            )
            &&& cell_named(row, "id"@) == Some(
                match n.id {
                    Some(s) => ValV::Str(
                        if s@.len() > 12 {
                            s@.take(12)
                        } else {
                            s@
                        },
                    ),
                    None => ValV::Nothing,
                },
            )
            &&& cell_named(row, "driver"@) == Some(
                match n.driver {
                    Some(s) => ValV::Str(s@),
                    None => ValV::Nothing,
                },
            )
            &&& cell_named(row, "scope"@) == Some(
                match n.scope {
                    Some(s) => ValV::Str(s@),
                    None => ValV::Nothing,
                },
            )
            &&& cell_named(row, "internal"@) == Some(
                match n.internal {
                    Some(b) => ValV::Bool(b),
                    None => ValV::Nothing,
                },
            )
            &&& cell_named(row, "created"@) == Some(
                match n.created {
                    Some(s) => match rfc3339_instant(s@) {
                        Some(t) => ValV::Date(t),
                        None => ValV::Nothing,
                    },
                    None => ValV::Nothing,
                },
            )
            &&& d.show_labels ==> cell_named(row, "labels"@) == Some(
                match n.labels {
                    Some(ps) => ValV::Record(
                        Seq::new(ps@.len(), |i: int| (ps@[i].key@, ValV::Str(ps@[i].value@))),
                    ),
                    None => ValV::Nothing,
                },
            )
        }),
{
    let row = compact_model(n, d)->Record_0;
    assert(names_of(row) =~= seq!["name"@, "id"@, "driver"@, "scope"@, "internal"@, "created"@] + (
    if d.show_labels {
        seq!["labels"@]
    } else {
        Seq::empty()
    }));
    reveal_strlit("name");
    reveal_strlit("id");
    reveal_strlit("driver");
    reveal_strlit("scope");
    reveal_strlit("internal");
    reveal_strlit("created");
    reveal_strlit("labels");
    assert("name"@.len() == 4);
    assert("id"@.len() == 2);
    assert("driver"@.len() == 6);
    assert("scope"@.len() == 5);
    assert("internal"@.len() == 8);
    assert("created"@.len() == 7);
    assert("labels"@.len() == 6);
    assert("driver"@[0] != "labels"@[0]);
    assert(row[0].0 == "name"@);
    assert(row[1].0 == "id"@);
    assert(row[2].0 == "driver"@);
    assert(row[3].0 == "scope"@);
    assert(row[4].0 == "internal"@);
    assert(row[5].0 == "created"@);
    reveal_with_fuel(cell_named, 8);
    if d.show_labels {
        assert(row[6].0 == "labels"@);
    }
}

/// An inspected network's wide row holds, under these names and in this order, its name, its ID
/// cut to twelve characters, its driver and scope, whether it is internal, attachable and an
/// ingress, when it was created, its address management, its driver options, the containers
/// attached to it, and, when asked for, its labels; each absent field is nothing.
pub proof fn law_wide_cells(n: &NetworkDetail, d: Decorators)
    ensures
        ({
            let row = wide_model(n, d)->Record_0;
            &&& names_of(row) == seq!["name"@, "id"@, "driver"@, "scope"@, "internal"@, "attachable"@, "ingress"@, "created"@, "ipam"@, "options"@, "containers"@] + (if d.show_labels {
                seq!["labels"@]
            } else {
                Seq::empty()
            })
            &&& cell_named(row, "name"@) == Some(
                match n.name {
                    Some(s) => ValV::Str(s@),
                    None => ValV::Nothing,
                }
            )
            &&& cell_named(row, "id"@) == Some(
                match n.id {
                    Some(s) => ValV::Str(if s@.len() > 12 { s@.take(12) } else { s@ }),
                    None => ValV::Nothing,
                }
            )
            &&& cell_named(row, "driver"@) == Some(
                match n.driver {
                    Some(s) => ValV::Str(s@),
                    None => ValV::Nothing,
                }
            )
            &&& cell_named(row, "scope"@) == Some(
                match n.scope {
                    Some(s) => ValV::Str(s@),
                    None => ValV::Nothing,
                }
            )
            &&& cell_named(row, "internal"@) == Some(
                match n.internal {
                    Some(b) => ValV::Bool(b),
                    None => ValV::Nothing,
                }
            )
            &&& cell_named(row, "attachable"@) == Some(
                match n.attachable {
                    Some(b) => ValV::Bool(b),
                    None => ValV::Nothing,
                }
            )
            &&& cell_named(row, "ingress"@) == Some(
                match n.ingress {
                    Some(b) => ValV::Bool(b),
                    None => ValV::Nothing,
                }
            )
            &&& cell_named(row, "created"@) == Some(
                match n.created {
                    Some(s) => match rfc3339_instant(s@) {
                        Some(t) => ValV::Date(t),
                        None => ValV::Nothing,
                    },
                    None => ValV::Nothing,
                }
            )
            &&& cell_named(row, "ipam"@) == Some(
                ipam_model(n.ipam)
            )
            &&& cell_named(row, "options"@) == Some(
                str_map_model(n.options)
            )
            &&& cell_named(row, "containers"@) == Some(
                containers_model(n.containers)
            )
            &&& d.show_labels ==> cell_named(row, "labels"@) == Some(
                str_map_model(n.labels)
            )
        }),
{
    let row = wide_model(n, d)->Record_0;
    assert(names_of(row) =~= seq!["name"@, "id"@, "driver"@, "scope"@, "internal"@, "attachable"@, "ingress"@, "created"@, "ipam"@, "options"@, "containers"@] + (if d.show_labels {
        seq!["labels"@]
    } else {
        Seq::empty()
    }));
    reveal_strlit("name");
    reveal_strlit("id");
    reveal_strlit("driver");
    reveal_strlit("scope");
    reveal_strlit("internal");
    reveal_strlit("attachable");
    reveal_strlit("ingress");
    reveal_strlit("created");
    reveal_strlit("ipam");
    reveal_strlit("options");
    reveal_strlit("containers");
    reveal_strlit("labels");
    assert("name"@.len() == 4);
    assert("id"@.len() == 2);
    assert("driver"@.len() == 6);
    assert("scope"@.len() == 5);
    assert("internal"@.len() == 8);
    assert("attachable"@.len() == 10);
    assert("ingress"@.len() == 7);
    assert("created"@.len() == 7);
    assert("ipam"@.len() == 4);
    assert("options"@.len() == 7);
    assert("containers"@.len() == 10);
    assert("labels"@.len() == 6);
    assert("name"@[0] != "ipam"@[0]);
    assert("driver"@[0] != "labels"@[0]);
    assert("attachable"@[0] != "containers"@[0]);
    assert("ingress"@[0] != "created"@[0]);
    assert("ingress"@[0] != "options"@[0]);
    assert("created"@[0] != "options"@[0]);
    assert(row[0].0 == "name"@);
    assert(row[1].0 == "id"@);
    assert(row[2].0 == "driver"@);
    assert(row[3].0 == "scope"@);
    assert(row[4].0 == "internal"@);
    assert(row[5].0 == "attachable"@);
    assert(row[6].0 == "ingress"@);
    assert(row[7].0 == "created"@);
    assert(row[8].0 == "ipam"@);
    assert(row[9].0 == "options"@);
    assert(row[10].0 == "containers"@);
    reveal_with_fuel(cell_named, 13);
    if d.show_labels {
        assert(row[11].0 == "labels"@);
    }
}

/// The address management of a network is nothing where it has none; otherwise a record of its
/// driver and of its pools, each with its subnet, gateway and address range, in order (an empty
/// list where it names none).
pub proof fn law_ipam_cells(ipam: Ipam, q: int)
    ensures
        ipam_model(None) == ValV::Nothing,
        ({
            let r = ipam_model(Some(ipam))->Record_0;
            let pools = match ipam.config {
                Some(cs) => cs@,
                None => Seq::empty(),
            };
            &&& ipam_model(Some(ipam)) is Record
            &&& r.len() == 2
            &&& r[0] == ("driver"@, match ipam.driver {
                Some(s) => ValV::Str(s@),
                None => ValV::Nothing,
            })
            &&& r[1].0 == "config"@
            &&& r[1].1 is List
            &&& r[1].1->List_0.len() == pools.len()
            &&& 0 <= q < pools.len() ==> r[1].1->List_0[q] == ValV::Record(
                seq![
                    ("subnet"@, opt_str_model(pools[q].subnet)),
                    ("gateway"@, opt_str_model(pools[q].gateway)),
                    ("ip_range"@, opt_str_model(pools[q].ip_range)),
                ],
            )
        }),
{
}

/// The containers attached to a network are a list, one record per container in order, each
/// with its name and its IPv4, IPv6 and MAC addresses; an empty list where the daemon names none.
pub proof fn law_container_cells(cs: Option<Vec<Endpoint>>, q: int)
    ensures
        ({
            let es = match cs {
                Some(es) => es@,
                None => Seq::empty(),
            };
            &&& containers_model(cs) is List
            &&& containers_model(cs)->List_0.len() == es.len()
            &&& 0 <= q < es.len() ==> containers_model(cs)->List_0[q] == ValV::Record(
                seq![
                    ("name"@, opt_str_model(es[q].name)),
                    ("ipv4"@, opt_str_model(es[q].ipv4_address)),
                    ("ipv6"@, opt_str_model(es[q].ipv6_address)),
                    ("mac"@, opt_str_model(es[q].mac_address)),
                ],
            )
        }),
{
}

/// The networks to inspect are the IDs of the listed networks that have one, in the order
/// listed; a network without an ID is skipped.
pub proof fn law_ids_of_listed(nets: Seq<NetworkSummary>)
    ensures
        ids_model(nets) == nets.filter_map(
            |n: NetworkSummary|
                match n.id {
                    Some(id) => Some(id@),
                    None => None,
                },
        ),
    decreases nets.len(),
{
    if nets.len() > 0 {
        law_ids_of_listed(nets.drop_last());
        match nets.last().id {
            Some(id) => {
                assert(ids_model(nets) =~= ids_model(nets.drop_last()) + seq![id@]);
            },
            None => {},
        }
    }
}

/// Name completions: one per listed network that has a name, in order, with its driver as the
/// description (none where it has no driver).
pub proof fn law_name_suggestions(nets: Seq<NetworkSummary>)
    ensures
        name_suggestions_model(nets) == nets.filter_map(
            |n: NetworkSummary|
                match n.name {
                    Some(name) => Some(
                        (
                            name@,
                            match n.driver {
                                Some(d) => Some(d@),
                                None => None,
                            },
                        ),
                    ),
                    None => None,
                },
        ),
    decreases nets.len(),
{
    if nets.len() > 0 {
        law_name_suggestions(nets.drop_last());
        match nets.last().name {
            Some(name) => {
                assert(name_suggestions_model(nets) =~= name_suggestions_model(nets.drop_last())
                    + seq![(name@, opt_view(nets.last().driver))]);
            },
            None => {},
        }
    }
}

/// ID completions: one per listed network that has an ID, in order, with its name as the
/// description (none where it has no name).
pub proof fn law_id_suggestions(nets: Seq<NetworkSummary>)
    ensures
        id_suggestions_model(nets) == nets.filter_map(
            |n: NetworkSummary|
                match n.id {
                    Some(id) => Some(
                        (
                            id@,
                            match n.name {
                                Some(name) => Some(name@),
                                None => None,
                            },
                        ),
                    ),
                    None => None,
                },
        ),
    decreases nets.len(),
{
    if nets.len() > 0 {
        law_id_suggestions(nets.drop_last());
        match nets.last().id {
            Some(id) => {
                assert(id_suggestions_model(nets) =~= id_suggestions_model(nets.drop_last())
                    + seq![(id@, opt_view(nets.last().name))]);
            },
            None => {},
        }
    }
}

/// The wide table has the wide row of each inspection that succeeded, in order, and no row for
/// one that failed.
pub proof fn law_wide_rows(nets: Seq<Option<NetworkDetail>>, d: Decorators)
    ensures
        wide_rows(nets, d) == nets.filter_map(
            |o: Option<NetworkDetail>|
                match o {
                    Some(n) => Some(wide_model(&n, d)),
                    None => None,
                },
        ),
    decreases nets.len(),
{
    if nets.len() > 0 {
        law_wide_rows(nets.drop_last(), d);
        match nets.last() {
            Some(n) => {
                assert(wide_rows(nets, d) =~= wide_rows(nets.drop_last(), d) + seq![wide_model(&n, d)]);
            },
            None => {},
        }
    }
}

/// The compact table has one row per listed network, in the order listed, each the compact row
/// of that network.
pub proof fn law_compact_table(nets: Seq<NetworkSummary>, d: Decorators, i: int)
    ensures
        compact_table_model(nets, d) is List,
        compact_table_model(nets, d)->List_0.len() == nets.len(),
        0 <= i < nets.len() ==> compact_table_model(nets, d)->List_0[i] == compact_model(&nets[i], d),
{
}

/// The wide form keeps every column of the compact form, with the same cell, for a network
/// that the daemon reports alike in both.
pub proof fn law_wide_keeps_compact_columns(s: &NetworkSummary, n: &NetworkDetail, d: Decorators)
    requires
        s.name == n.name,
        s.id == n.id,
        s.driver == n.driver,
        s.scope == n.scope,
        s.internal == n.internal,
        s.created == n.created,
    ensures
        forall|i: int|
            0 <= i < 6 ==> exists|j: int|
                0 <= j < 11 && (#[trigger] compact_model(s, d)->Record_0[i]) == wide_model(
                    n,
                    d,
                )->Record_0[j],
{
    let c = compact_model(s, d)->Record_0;
    let w = wide_model(n, d)->Record_0;
    assert(c[0] == w[0]);
    assert(c[1] == w[1]);
    assert(c[2] == w[2]);
    assert(c[3] == w[3]);
    assert(c[4] == w[4]);
    assert(c[5] == w[7]);
}

} // verus!
