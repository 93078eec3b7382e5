use nude::fields::Pair;
use nude::network::{
    compact, compact_table, containers_value, id_suggestions, ipam_value, name_suggestions,
    network_ids, wide, wide_table, Decorators, Endpoint, Ipam, IpamConfig, NetworkDetail, NetworkSummary,
};
use nude::value::{Field, Stamp, Val};

fn s(x: &str) -> Option<String> {
    Some(x.to_string())
}

fn summary(name: Option<String>, id: Option<String>) -> NetworkSummary {
    NetworkSummary {
        name,
        id,
        driver: s("bridge"),
        scope: s("local"),
        internal: Some(false),
        created: s("2024-05-01T10:20:30.5+02:00"),
        labels: Some(vec![Pair { key: "tier".to_string(), value: "db".to_string() }]),
    }
}

fn detail(ipam: Option<Ipam>, containers: Option<Vec<Endpoint>>) -> NetworkDetail {
    NetworkDetail {
        name: s("devutils_default"),
        id: s("0123456789abcdef0123"),
        driver: s("bridge"),
        scope: s("local"),
        internal: Some(false),
        attachable: Some(true),
        ingress: None,
        created: s("2024-05-01T10:20:30Z"),
        ipam,
        options: None,
        containers,
        labels: None,
    }
}

fn names(v: &Val) -> Vec<String> {
    match v {
        Val::Record(fields) => fields.iter().map(|f| f.name.clone()).collect(),
        other => panic!("not a record: {:?}", other),
    }
}

fn get<'a>(v: &'a Val, name: &str) -> &'a Val {
    match v {
        Val::Record(fields) => &fields.iter().find(|f| f.name == name).unwrap().value,
        other => panic!("not a record: {:?}", other),
    }
}

#[test]
fn compact_networks_are_flat_and_short() {
    let row = compact(&summary(s("redis"), s("0123456789abcdef")), Decorators { show_labels: false });
    assert_eq!(names(&row), ["name", "id", "driver", "scope", "internal", "created"]);
    assert_eq!(get(&row, "id"), &Val::Str("0123456789ab".to_string()));
    assert_eq!(get(&row, "internal"), &Val::Bool(false));
    assert_eq!(
        get(&row, "created"),
        &Val::Date(Stamp { secs: 1_714_551_630, nanos: 500_000_000, offset_secs: 7200 })
    );
    match &row {
        Val::Record(fields) => {
            assert!(fields.iter().all(|f| !matches!(f.value, Val::List(..) | Val::Record(..))))
        }
        _ => unreachable!(),
    }
}

#[test]
fn labels_are_shown_when_asked_for() {
    let row = compact(&summary(s("redis"), None), Decorators { show_labels: true });
    assert_eq!(names(&row), ["name", "id", "driver", "scope", "internal", "created", "labels"]);
    assert_eq!(get(&row, "id"), &Val::Nothing);
    assert_eq!(
        get(&row, "labels"),
        &Val::Record(vec![Field { name: "tier".to_string(), value: Val::Str("db".to_string()) }])
    );
}

#[test]
fn unreadable_creation_dates_become_nothing() {
    let mut n = summary(s("x"), None);
    n.created = s("yesterday");
    assert_eq!(get(&compact(&n, Decorators { show_labels: false }), "created"), &Val::Nothing);
}

#[test]
fn wide_networks_keep_the_compact_columns() {
    let d = detail(None, None);
    let row = wide(&d, Decorators { show_labels: false });
    assert_eq!(
        names(&row),
        [
            "name", "id", "driver", "scope", "internal", "attachable", "ingress", "created", "ipam",
            "options", "containers"
        ]
    );
    let c = compact(
        &NetworkSummary {
            name: d.name.clone(),
            id: d.id.clone(),
            driver: d.driver.clone(),
            scope: d.scope.clone(),
            internal: d.internal,
            created: d.created.clone(),
            labels: None,
        },
        Decorators { show_labels: false },
    );
    for name in names(&c) {
        assert_eq!(get(&c, &name), get(&row, &name));
    }
    assert_eq!(get(&row, "ingress"), &Val::Nothing);
}

#[test]
fn a_network_without_ipam_shows_nothing_for_it() {
    assert_eq!(ipam_value(&detail(None, None)), Val::Nothing);
}

#[test]
fn ipam_without_pools_is_an_empty_list() {
    let v = ipam_value(&detail(Some(Ipam { driver: s("default"), config: None }), None));
    assert_eq!(get(&v, "config"), &Val::List(vec![]));
    assert_eq!(get(&v, "driver"), &Val::Str("default".to_string()));
}

#[test]
fn ipam_pools_are_listed() {
    let pool = IpamConfig { subnet: s("172.18.0.0/16"), gateway: s("172.18.0.1"), ip_range: None };
    let v = ipam_value(&detail(Some(Ipam { driver: None, config: Some(vec![pool]) }), None));
    match get(&v, "config") {
        Val::List(pools) => {
            assert_eq!(pools.len(), 1);
            assert_eq!(names(&pools[0]), ["subnet", "gateway", "ip_range"]);
            assert_eq!(get(&pools[0], "gateway"), &Val::Str("172.18.0.1".to_string()));
            assert_eq!(get(&pools[0], "ip_range"), &Val::Nothing);
        }
        other => panic!("not a list: {:?}", other),
    }
}

#[test]
fn attached_containers_are_listed() {
    assert_eq!(containers_value(&detail(None, None)), Val::List(vec![]));
    let e = Endpoint {
        name: s("redis"),
        ipv4_address: s("172.18.0.5/16"),
        ipv6_address: None,
        mac_address: s("02:42:ac:12:00:05"),
    };
    match containers_value(&detail(None, Some(vec![e]))) {
        Val::List(rows) => {
            assert_eq!(rows.len(), 1);
            assert_eq!(names(&rows[0]), ["name", "ipv4", "ipv6", "mac"]);
            assert_eq!(get(&rows[0], "ipv4"), &Val::Str("172.18.0.5/16".to_string()));
        }
        other => panic!("not a list: {:?}", other),
    }
}

#[test]
fn only_networks_with_ids_are_inspected() {
    let nets = vec![summary(s("a"), s("id-a")), summary(s("b"), None), summary(None, s("id-c"))];
    assert_eq!(network_ids(&nets), ["id-a", "id-c"]);
    match compact_table(&nets, Decorators { show_labels: false }) {
        Val::List(rows) => assert_eq!(rows.len(), 3),
        other => panic!("not a list: {:?}", other),
    }
}

#[test]
fn completions_offer_names_and_ids() {
    let nets = vec![summary(s("a"), s("id-a")), summary(s("b"), None), summary(None, s("id-c"))];
    let by_name: Vec<(String, Option<String>)> =
        name_suggestions(&nets).into_iter().map(|x| (x.value, x.description)).collect();
    assert_eq!(
        by_name,
        [("a".to_string(), s("bridge")), ("b".to_string(), s("bridge"))]
    );
    let by_id: Vec<(String, Option<String>)> =
        id_suggestions(&nets).into_iter().map(|x| (x.value, x.description)).collect();
    assert_eq!(by_id, [("id-a".to_string(), s("a")), ("id-c".to_string(), None)]);
}

#[test]
fn failed_inspections_give_no_row() {
    let d = Decorators { show_labels: false };
    let mut other = detail(None, None);
    other.name = s("redis_net");
    let table = wide_table(&vec![None, Some(detail(None, None)), None, Some(other)], d);
    match table {
        Val::List(rows) => {
            assert_eq!(rows.len(), 2);
            assert_eq!(get(&rows[0], "name"), &Val::Str("devutils_default".to_string()));
            assert_eq!(get(&rows[1], "name"), &Val::Str("redis_net".to_string()));
        }
        other => panic!("not a list: {:?}", other),
    }
    assert_eq!(wide_table(&vec![None, None], d), Val::List(vec![]));
}
