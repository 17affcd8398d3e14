//! Laws of manifest generation: what it renders is a function of the
//! project's service *mapping*, not of the order the services are declared
//! in; every enabled service is rendered exactly once with its declared
//! port on the host side; and each enabled stateful service owns exactly
//! one named volume.

use vstd::prelude::*;

use crate::catalog::{container_port_spec, kind_of_key, named_volume_spec, ServiceKind};
use crate::config::{lookup, unique_keys, ProjectConfigView, ServiceConfigView};
use crate::manifest::{
    ctx_of, gen_services_from, gen_volumes_from, manifest_spec, port_mapping_spec, stanza_spec,
    GenCtx, StanzaView,
};

verus! {

broadcast use vstd::prelude::Seq::group_seq_extra;

/// Some entry of the association list has this key.
pub open spec fn has_key<V>(s: Seq<(Seq<char>, V)>, k: Seq<char>) -> bool {
    exists|i: int| 0 <= i < s.len() && (#[trigger] s[i]).0 == k
}

/// Some entry has this key and is enabled.
pub open spec fn has_enabled(s: Seq<(Seq<char>, ServiceConfigView)>, k: Seq<char>) -> bool {
    exists|i: int| 0 <= i < s.len() && (#[trigger] s[i]).0 == k && s[i].1.enabled
}

/// Under unique keys, the lookup-based enabled test agrees with the
/// existential one.
pub proof fn lemma_enabled_in_iff_has_enabled(
    s: Seq<(Seq<char>, ServiceConfigView)>,
    k: Seq<char>,
)
    requires
        unique_keys(s),
    ensures
        crate::config::enabled_in(s, k) == has_enabled(s, k),
    decreases s.len(),
{
    if s.len() == 0 {
    } else if s[0].0 == k {
        if s[0].1.enabled {
            assert(has_enabled(s, k));
        } else if has_enabled(s, k) {
            let i = choose|i: int|
                0 <= i < s.len() && (#[trigger] s[i]).0 == k && s[i].1.enabled;
            assert(i != 0);
            assert(s[0].0 == s[i].0);
        }
    } else {
        let t = s.skip(1);
        assert(forall|i: int, j: int|
            0 <= i < j < t.len() ==> (#[trigger] t[i]).0 != (#[trigger] t[j]).0) by {
            assert(forall|i: int| 0 <= i < t.len() ==> t[i] == (#[trigger] s[i + 1]));
        }
        lemma_enabled_in_iff_has_enabled(t, k);
        if has_enabled(s, k) {
            let i = choose|i: int|
                0 <= i < s.len() && (#[trigger] s[i]).0 == k && s[i].1.enabled;
            assert(t[i - 1].0 == k && t[i - 1].1.enabled);
            assert(has_enabled(t, k));
        }
        if has_enabled(t, k) {
            let i = choose|i: int|
                0 <= i < t.len() && (#[trigger] t[i]).0 == k && t[i].1.enabled;
            assert(s[i + 1].0 == k && s[i + 1].1.enabled);
            assert(has_enabled(s, k));
        }
    }
}

/// The association list as a mapping; on a duplicate key the later entry
/// wins, so under `unique_keys` the mapping is exact.
pub open spec fn assoc_map<V>(s: Seq<(Seq<char>, V)>) -> Map<Seq<char>, V>
    decreases s.len(),
{
    if s.len() == 0 {
        Map::empty()
    } else {
        assoc_map(s.drop_last()).insert(s.last().0, s.last().1)
    }
}

/// How often a value occurs in a sequence of strings.
pub open spec fn count_eq(s: Seq<Seq<char>>, v: Seq<char>) -> int
    decreases s.len(),
{
    if s.len() == 0 {
        0
    } else {
        count_eq(s.drop_last(), v) + if s.last() == v {
            1int
        } else {
            0int
        }
    }
}

proof fn lemma_lookup_append_one<V>(s: Seq<(Seq<char>, V)>, e: (Seq<char>, V), k: Seq<char>)
    ensures
        lookup(s.push(e), k) == match lookup(s, k) {
            Some(v) => Some(v),
            None => if e.0 == k {
                Some(e.1)
            } else {
                None
            },
        },
    decreases s.len(),
{
    if s.len() == 0 {
        assert(s.push(e)[0] == e);
        assert(s.push(e).skip(1) =~= Seq::<(Seq<char>, V)>::empty());
        assert(lookup(s.push(e).skip(1), k) is None);
    } else {
        assert(s.push(e)[0] == s[0]);
        if s[0].0 != k {
            assert(s.push(e).skip(1) =~= s.skip(1).push(e));
            lemma_lookup_append_one(s.skip(1), e, k);
            assert(lookup(s.push(e), k) == lookup(s.skip(1).push(e), k));
            assert(lookup(s, k) == lookup(s.skip(1), k));
        } else {
            assert(lookup(s.push(e), k) == Some(s[0].1));
            assert(lookup(s, k) == Some(s[0].1));
        }
    }
}

/// A key is in the association mapping exactly when some entry carries it.
pub proof fn lemma_assoc_map_dom<V>(s: Seq<(Seq<char>, V)>, k: Seq<char>)
    ensures
        assoc_map(s).contains_key(k) <==> has_key(s, k),
    decreases s.len(),
{
    if s.len() > 0 {
        lemma_assoc_map_dom(s.drop_last(), k);
        if assoc_map(s).contains_key(k) {
            if s.last().0 != k {
                let i = choose|i: int|
                    0 <= i < s.drop_last().len() && (#[trigger] s.drop_last()[i]).0 == k;
                assert(s[i].0 == k);
            } else {
                assert(s[s.len() - 1].0 == k);
            }
        }
        if has_key(s, k) && s.last().0 != k {
            let i = choose|i: int| 0 <= i < s.len() && (#[trigger] s[i]).0 == k;
            assert(s.drop_last()[i].0 == k);
        }
    }
}

/// Under unique keys, lookup agrees with the association mapping.
pub proof fn lemma_lookup_assoc<V>(s: Seq<(Seq<char>, V)>, k: Seq<char>)
    requires
        unique_keys(s),
    ensures
        lookup(s, k) == if assoc_map(s).contains_key(k) {
            Some(assoc_map(s)[k])
        } else {
            None::<V>
        },
    decreases s.len(),
{
    if s.len() > 0 {
        let pre = s.drop_last();
        assert(forall|i: int, j: int|
            0 <= i < j < pre.len() ==> (#[trigger] pre[i]).0 != (#[trigger] pre[j]).0) by {
            assert(forall|i: int| 0 <= i < pre.len() ==> pre[i] == (#[trigger] s[i]));
        }
        lemma_lookup_assoc(pre, k);
        lemma_assoc_map_dom(pre, k);
        assert(s =~= pre.push(s.last()));
        lemma_lookup_append_one(pre, s.last(), k);
        if s.last().0 == k && has_key(pre, k) {
            let i = choose|i: int| 0 <= i < pre.len() && (#[trigger] pre[i]).0 == k;
            assert(s[i].0 == s[s.len() - 1].0);
            assert(false);
        }
    }
}

/// The mapping that generation realizes: one stanza per enabled service
/// other than the security toggle.
pub open spec fn gen_map_of(c: GenCtx, m: Map<Seq<char>, ServiceConfigView>) -> Map<
    Seq<char>,
    StanzaView,
> {
    Map::new(
        |k: Seq<char>| m.contains_key(k) && m[k].enabled && kind_of_key(k) != ServiceKind::Ssl,
        |k: Seq<char>| stanza_spec(c, k, m[k]),
    )
}

/// Generated stanzas, read as a mapping, are exactly the enabled services of
/// the project's service mapping, each rendered by `stanza_spec`; and their
/// keys are unique.
pub proof fn lemma_gen_map(c: GenCtx, s: Seq<(Seq<char>, ServiceConfigView)>)
    requires
        unique_keys(s),
    ensures
        assoc_map(gen_services_from(c, s)) == gen_map_of(c, assoc_map(s)),
        unique_keys(gen_services_from(c, s)),
        forall|j: int|
            0 <= j < gen_services_from(c, s).len() ==> has_key(
                s,
                (#[trigger] gen_services_from(c, s)[j]).0,
            ),
    decreases s.len(),
{
    let g = gen_services_from(c, s);
    if s.len() == 0 {
        assert(assoc_map(g) =~= gen_map_of(c, assoc_map(s)));
    } else {
        let pre = s.drop_last();
        let e = s.last();
        assert(forall|i: int, j: int|
            0 <= i < j < pre.len() ==> (#[trigger] pre[i]).0 != (#[trigger] pre[j]).0) by {
            assert(forall|i: int| 0 <= i < pre.len() ==> pre[i] == (#[trigger] s[i]));
        }
        lemma_gen_map(c, pre);
        lemma_assoc_map_dom(pre, e.0);
        assert(!has_key(pre, e.0)) by {
            if has_key(pre, e.0) {
                let i = choose|i: int| 0 <= i < pre.len() && (#[trigger] pre[i]).0 == e.0;
                assert(s[i].0 == s[s.len() - 1].0);
            }
        }
        let gp = gen_services_from(c, pre);
        if e.1.enabled && kind_of_key(e.0) != ServiceKind::Ssl {
            assert(g == gp.push((e.0, stanza_spec(c, e.0, e.1))));
            assert(assoc_map(g) == assoc_map(gp).insert(e.0, stanza_spec(c, e.0, e.1))) by {
                assert(g.drop_last() =~= gp);
                assert(g.last() == (e.0, stanza_spec(c, e.0, e.1)));
            }
            assert(assoc_map(g) =~= gen_map_of(c, assoc_map(s))) by {
                assert(forall|k: Seq<char>|
                    k != e.0 && assoc_map(s).contains_key(k) ==> #[trigger] assoc_map(s)[k]
                        == assoc_map(pre)[k]);
            }
            assert(forall|j: int| 0 <= j < g.len() ==> has_key(s, (#[trigger] g[j]).0)) by {
                assert(forall|j: int|
                    0 <= j < gp.len() ==> has_key(pre, (#[trigger] gp[j]).0) && gp[j] == (
                    #[trigger] g[j]));
                assert(forall|j: int, i: int|
                    0 <= j < g.len() && 0 <= i < pre.len() && (#[trigger] pre[i]).0 == (
                    #[trigger] g[j]).0 ==> s[i].0 == g[j].0);
                assert(g[g.len() - 1].0 == s[s.len() - 1].0);
            }
            assert(forall|i: int, j: int|
                0 <= i < j < g.len() ==> (#[trigger] g[i]).0 != (#[trigger] g[j]).0) by {
                assert(forall|i: int, j: int|
                    0 <= i < j < gp.len() ==> (#[trigger] gp[i]).0 != (#[trigger] gp[j]).0);
                assert(forall|i: int|
                    0 <= i < gp.len() ==> has_key(pre, (#[trigger] gp[i]).0));
                assert(forall|i: int| 0 <= i < g.len() - 1 ==> (#[trigger] g[i]) == gp[i]);
                assert(forall|i: int|
                    0 <= i < g.len() - 1 && (#[trigger] g[i]).0 == e.0 ==> has_key(pre, e.0));
            }
        } else {
            assert(g == gp);
            assert(assoc_map(g) =~= gen_map_of(c, assoc_map(s))) by {
                assert(forall|k: Seq<char>|
                    k != e.0 && assoc_map(s).contains_key(k) ==> #[trigger] assoc_map(s)[k]
                        == assoc_map(pre)[k]);
                assert(!(assoc_map(s)[e.0].enabled && kind_of_key(e.0) != ServiceKind::Ssl));
            }
            assert(forall|j: int| 0 <= j < g.len() ==> has_key(s, (#[trigger] g[j]).0)) by {
                assert(forall|j: int, i: int|
                    0 <= j < g.len() && 0 <= i < pre.len() && (#[trigger] pre[i]).0 == (
                    #[trigger] g[j]).0 ==> s[i].0 == g[j].0);
            }
        }
    }
}

/// The named volumes a service mapping owes: one name per enabled service
/// whose kind maintains state.
pub open spec fn vol_set_of(m: Map<Seq<char>, ServiceConfigView>) -> Set<Seq<char>> {
    Set::new(
        |v: Seq<char>|
            exists|k: Seq<char>|
                #[trigger] m.contains_key(k) && m[k].enabled && (named_volume_spec(kind_of_key(k))
                    matches Some(nv) && nv.0 == v),
    )
}

/// The generated named volumes, read as a set, are exactly the volumes the
/// project's service mapping owes.
pub proof fn lemma_gen_volumes_set(s: Seq<(Seq<char>, ServiceConfigView)>)
    requires
        unique_keys(s),
    ensures
        gen_volumes_from(s).to_set() == vol_set_of(assoc_map(s)),
    decreases s.len(),
{
    let g = gen_volumes_from(s);
    if s.len() == 0 {
        assert(g.to_set() =~= vol_set_of(assoc_map(s))) by {
            assert(forall|v: Seq<char>| !(#[trigger] g.to_set().contains(v)));
        }
    } else {
        let pre = s.drop_last();
        let e = s.last();
        assert(forall|i: int, j: int|
            0 <= i < j < pre.len() ==> (#[trigger] pre[i]).0 != (#[trigger] pre[j]).0) by {
            assert(forall|i: int| 0 <= i < pre.len() ==> pre[i] == (#[trigger] s[i]));
        }
        lemma_gen_volumes_set(pre);
        lemma_assoc_map_dom(pre, e.0);
        assert(!has_key(pre, e.0)) by {
            if has_key(pre, e.0) {
                let i = choose|i: int| 0 <= i < pre.len() && (#[trigger] pre[i]).0 == e.0;
                assert(s[i].0 == s[s.len() - 1].0);
            }
        }
        let m0 = assoc_map(pre);
        let m = assoc_map(s);
        assert(m == m0.insert(e.0, e.1));
        let gp = gen_volumes_from(pre);
        if e.1.enabled && kind_of_key(e.0) != ServiceKind::Ssl && named_volume_spec(
            kind_of_key(e.0),
        ) is Some {
            let nv = named_volume_spec(kind_of_key(e.0)).unwrap();
            assert(g == gp.push(nv.0));
            assert(g.to_set() == gp.to_set().insert(nv.0));
            assert(g.to_set() =~= vol_set_of(m)) by {
                assert forall|v: Seq<char>| #[trigger]
                    vol_set_of(m).contains(v) implies gp.to_set().insert(nv.0).contains(v) by {
                    let k = choose|k: Seq<char>|
                        #[trigger] m.contains_key(k) && m[k].enabled && (named_volume_spec(
                            kind_of_key(k),
                        ) matches Some(nv2) && nv2.0 == v);
                    if k == e.0 {
                        assert(v == nv.0);
                    } else {
                        assert(m0.contains_key(k) && m0[k] == m[k]);
                        assert(vol_set_of(m0).contains(v));
                    }
                }
                assert forall|v: Seq<char>| #[trigger]
                    gp.to_set().insert(nv.0).contains(v) implies vol_set_of(m).contains(v) by {
                    if v == nv.0 {
                        assert(m.contains_key(e.0) && m[e.0].enabled);
                        assert(vol_set_of(m).contains(v));
                    } else {
                        assert(vol_set_of(m0).contains(v));
                        let k = choose|k: Seq<char>|
                            #[trigger] m0.contains_key(k) && m0[k].enabled && (named_volume_spec(
                                kind_of_key(k),
                            ) matches Some(nv2) && nv2.0 == v);
                        assert(k != e.0);
                        assert(m.contains_key(k) && m[k] == m0[k]);
                    }
                }
            }
        } else {
            assert(g == gp);
            assert(g.to_set() =~= vol_set_of(m)) by {
                assert forall|v: Seq<char>| #[trigger]
                    vol_set_of(m).contains(v) implies vol_set_of(m0).contains(v) by {
                    let k = choose|k: Seq<char>|
                        #[trigger] m.contains_key(k) && m[k].enabled && (named_volume_spec(
                            kind_of_key(k),
                        ) matches Some(nv2) && nv2.0 == v);
                    assert(k != e.0) by {
                        if k == e.0 {
                            assert(named_volume_spec(ServiceKind::Ssl) is None);
                        }
                    }
                    assert(m0.contains_key(k) && m0[k] == m[k]);
                }
                assert forall|v: Seq<char>| #[trigger]
                    vol_set_of(m0).contains(v) implies vol_set_of(m).contains(v) by {
                    let k = choose|k: Seq<char>|
                        #[trigger] m0.contains_key(k) && m0[k].enabled && (named_volume_spec(
                            kind_of_key(k),
                        ) matches Some(nv2) && nv2.0 == v);
                    assert(k != e.0);
                    assert(m.contains_key(k) && m[k] == m0[k]);
                }
            }
        }
    }
}

/// Manifest generation is deterministic in content: two projects that agree
/// on identity, directory and TLS flag and declare the same service
/// *mapping* — however their declarations are ordered — yield manifests with
/// the same stanza mapping, the same set of named volumes and the same
/// network.
pub proof fn lemma_generation_deterministic(p1: ProjectConfigView, p2: ProjectConfigView)
    requires
        unique_keys(p1.services),
        unique_keys(p2.services),
        assoc_map(p1.services) == assoc_map(p2.services),
        p1.id == p2.id,
        p1.directory == p2.directory,
        p1.ssl_enabled == p2.ssl_enabled,
    ensures
        assoc_map(manifest_spec(p1).services) == assoc_map(manifest_spec(p2).services),
        manifest_spec(p1).volumes.to_set() == manifest_spec(p2).volumes.to_set(),
        manifest_spec(p1).network == manifest_spec(p2).network,
{
    lemma_lookup_assoc(p1.services, "mysql"@);
    lemma_lookup_assoc(p2.services, "mysql"@);
    lemma_lookup_assoc(p1.services, "postgresql"@);
    lemma_lookup_assoc(p2.services, "postgresql"@);
    assert(ctx_of(p1) == ctx_of(p2));
    lemma_gen_map(ctx_of(p1), p1.services);
    lemma_gen_map(ctx_of(p2), p2.services);
    lemma_gen_volumes_set(p1.services);
    lemma_gen_volumes_set(p2.services);
}

/// Every enabled service other than the security toggle appears in the
/// manifest under its own key, exactly once, rendered by `stanza_spec`; a
/// kind with a canonical container port publishes the declared host port
/// against it, and a custom service publishes its port on both sides.
pub proof fn lemma_enabled_service_rendered(p: ProjectConfigView, key: Seq<char>)
    requires
        unique_keys(p.services),
        lookup(p.services, key) matches Some(svc) && svc.enabled,
        kind_of_key(key) != ServiceKind::Ssl,
    ensures
        unique_keys(manifest_spec(p).services),
        lookup(manifest_spec(p).services, key) == Some(
            stanza_spec(ctx_of(p), key, lookup(p.services, key).unwrap()),
        ),
        container_port_spec(kind_of_key(key)) matches Some(cp) ==> lookup(
            manifest_spec(p).services,
            key,
        ).unwrap().ports[0] == port_mapping_spec(lookup(p.services, key).unwrap().port, cp),
        kind_of_key(key) == ServiceKind::Custom ==> lookup(
            manifest_spec(p).services,
            key,
        ).unwrap().ports[0] == port_mapping_spec(
            lookup(p.services, key).unwrap().port,
            lookup(p.services, key).unwrap().port,
        ),
{
    let c = ctx_of(p);
    let svc = lookup(p.services, key).unwrap();
    lemma_gen_map(c, p.services);
    lemma_lookup_assoc(p.services, key);
    let g = manifest_spec(p).services;
    lemma_lookup_assoc(g, key);
    assert(assoc_map(g).contains_key(key));
    assert(assoc_map(g)[key] == stanza_spec(c, key, svc));
}

proof fn lemma_volume_names_distinct()
    ensures
        forall|k1: Seq<char>, k2: Seq<char>|
            (#[trigger] named_volume_spec(kind_of_key(k1))) matches Some(n1) && (
            #[trigger] named_volume_spec(kind_of_key(k2))) matches Some(n2) && n1.0 == n2.0 ==> k1
                == k2,
{
    reveal_strlit("postgres_data");
    reveal_strlit("mysql_data");
    reveal_strlit("pgadmin_data");
    reveal_strlit("redis_data");
    assert("postgres_data"@.len() == 13);
    assert("mysql_data"@.len() == 10);
    assert("pgadmin_data"@.len() == 12);
    assert("redis_data"@.len() == 10);
    assert("mysql_data"@[0] == 'm');
    assert("redis_data"@[0] == 'r');
    assert forall|k1: Seq<char>, k2: Seq<char>|
        (#[trigger] named_volume_spec(kind_of_key(k1))) matches Some(n1) && (
        #[trigger] named_volume_spec(kind_of_key(k2))) matches Some(n2) && n1.0
            == n2.0 implies k1 == k2 by {
        assert(kind_of_key(k1) == kind_of_key(k2));
    }
}

proof fn lemma_volume_count_helper(s: Seq<(Seq<char>, ServiceConfigView)>, key: Seq<char>)
    requires
        unique_keys(s),
        named_volume_spec(kind_of_key(key)) is Some,
    ensures
        count_eq(gen_volumes_from(s), named_volume_spec(kind_of_key(key)).unwrap().0) == if
        has_enabled(s, key) {
            1int
        } else {
            0int
        },
    decreases s.len(),
{
    let nv0 = named_volume_spec(kind_of_key(key)).unwrap().0;
    if s.len() == 0 {
        assert(!has_enabled(s, key));
    } else {
        let pre = s.drop_last();
        let e = s.last();
        assert(forall|i: int, j: int|
            0 <= i < j < pre.len() ==> (#[trigger] pre[i]).0 != (#[trigger] pre[j]).0) by {
            assert(forall|i: int| 0 <= i < pre.len() ==> pre[i] == (#[trigger] s[i]));
        }
        lemma_volume_count_helper(pre, key);
        lemma_volume_names_distinct();
        let gp = gen_volumes_from(pre);
        let g = gen_volumes_from(s);
        assert(kind_of_key(key) != ServiceKind::Ssl) by {
            assert(named_volume_spec(ServiceKind::Ssl) is None);
        }
        if e.1.enabled && kind_of_key(e.0) != ServiceKind::Ssl && named_volume_spec(
            kind_of_key(e.0),
        ) is Some {
            let x = named_volume_spec(kind_of_key(e.0)).unwrap().0;
            assert(g == gp.push(x));
            assert(g.drop_last() =~= gp);
            assert(count_eq(g, nv0) == count_eq(gp, nv0) + if x == nv0 {
                1int
            } else {
                0int
            });
            assert((x == nv0) <==> (e.0 == key));
            if e.0 == key {
                assert(!has_enabled(pre, key)) by {
                    if has_enabled(pre, key) {
                        let i = choose|i: int|
                            0 <= i < pre.len() && (#[trigger] pre[i]).0 == key
                                && pre[i].1.enabled;
                        assert(s[i].0 == s[s.len() - 1].0);
                    }
                }
                assert(has_enabled(s, key)) by {
                    assert(s[s.len() - 1].0 == key && s[s.len() - 1].1.enabled);
                }
            } else {
                assert(has_enabled(s, key) <==> has_enabled(pre, key)) by {
                    if has_enabled(s, key) {
                        let i = choose|i: int|
                            0 <= i < s.len() && (#[trigger] s[i]).0 == key && s[i].1.enabled;
                        assert(i < s.len() - 1);
                        assert(pre[i].0 == key && pre[i].1.enabled);
                    }
                    if has_enabled(pre, key) {
                        let i = choose|i: int|
                            0 <= i < pre.len() && (#[trigger] pre[i]).0 == key
                                && pre[i].1.enabled;
                        assert(s[i].0 == key && s[i].1.enabled);
                    }
                }
            }
        } else {
            assert(g == gp);
            assert(has_enabled(s, key) <==> has_enabled(pre, key)) by {
                if has_enabled(s, key) {
                    let i = choose|i: int|
                        0 <= i < s.len() && (#[trigger] s[i]).0 == key && s[i].1.enabled;
                    assert(i < s.len() - 1) by {
                        if i == s.len() - 1 {
                            assert(e.0 == key && e.1.enabled);
                        }
                    }
                    assert(pre[i].0 == key && pre[i].1.enabled);
                }
                if has_enabled(pre, key) {
                    let i = choose|i: int|
                        0 <= i < pre.len() && (#[trigger] pre[i]).0 == key && pre[i].1.enabled;
                    assert(s[i].0 == key && s[i].1.enabled);
                }
            }
        }
    }
}

/// A project with an enabled stateful service declares exactly one
/// corresponding named volume in its manifest.
pub proof fn lemma_stateful_volume_exactly_once(p: ProjectConfigView, key: Seq<char>)
    requires
        unique_keys(p.services),
        has_enabled(p.services, key),
        named_volume_spec(kind_of_key(key)) is Some,
    ensures
        count_eq(manifest_spec(p).volumes, named_volume_spec(kind_of_key(key)).unwrap().0) == 1,
{
    lemma_volume_count_helper(p.services, key);
}

/// A project with no enabled stateful service declares no named volume, so
/// the rendered document carries no volumes section at all.
pub proof fn lemma_no_stateful_no_volumes(p: ProjectConfigView)
    requires
        forall|i: int|
            0 <= i < p.services.len() ==> !((#[trigger] p.services[i]).1.enabled
                && named_volume_spec(kind_of_key(p.services[i].0)) is Some),
    ensures
        manifest_spec(p).volumes.len() == 0,
{
    lemma_no_stateful_helper(p.services);
}

proof fn lemma_no_stateful_helper(s: Seq<(Seq<char>, ServiceConfigView)>)
    requires
        forall|i: int|
            0 <= i < s.len() ==> !((#[trigger] s[i]).1.enabled && named_volume_spec(
                kind_of_key(s[i].0),
            ) is Some),
    ensures
        gen_volumes_from(s).len() == 0,
    decreases s.len(),
{
    if s.len() > 0 {
        let pre = s.drop_last();
        assert(forall|i: int|
            0 <= i < pre.len() ==> !((#[trigger] pre[i]).1.enabled && named_volume_spec(
                kind_of_key(pre[i].0),
            ) is Some)) by {
            assert(forall|i: int| 0 <= i < pre.len() ==> pre[i] == (#[trigger] s[i]));
        }
        lemma_no_stateful_helper(pre);
        assert(!(s[s.len() - 1].1.enabled && named_volume_spec(
            kind_of_key(s[s.len() - 1].0),
        ) is Some));
    }
}

} // verus!
