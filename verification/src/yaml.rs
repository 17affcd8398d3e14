//! Rendering of a manifest into its on-disk text: a fixed-layout document
//! with `services`, optional `volumes` and `networks` sections, every
//! data-dependent scalar double-quoted and escaped.

use vstd::prelude::*;

use crate::config::pairs_view;
use crate::manifest::{strings_view, HealthcheckView, Manifest, ManifestView, ServiceStanza, StanzaView};
use crate::strutil::{dec_str, push_char, u64_to_string};

verus! {

broadcast use vstd::prelude::Seq::group_seq_extra;

/// What one character contributes inside a double-quoted scalar.
pub open spec fn esc_char(c: char) -> Seq<char> {
    if c == '\\' {
        seq!['\\', '\\']
    } else if c == '"' {
        seq!['\\', '"']
    } else if c == '\n' {
        seq!['\\', 'n']
    } else if c == '\r' {
        seq!['\\', 'r']
    } else if c == '\t' {
        seq!['\\', 't']
    } else {
        seq![c]
    }
}

/// A string with backslashes, quotes and line breaks escaped.
pub open spec fn esc(s: Seq<char>) -> Seq<char>
    decreases s.len(),
{
    if s.len() == 0 {
        Seq::empty()
    } else {
        esc(s.drop_last()) + esc_char(s.last())
    }
}

/// A double-quoted scalar.
pub open spec fn quoted_scalar(s: Seq<char>) -> Seq<char> {
    seq!['"'] + esc(s) + seq!['"']
}

/// Appends a double-quoted, escaped scalar.
pub fn push_quoted(out: &mut String, s: &str)
    ensures
        final(out)@ == old(out)@ + quoted_scalar(s@),
{
    let ghost start = out@;
    push_char(out, '"');
    let n = s.unicode_len();
    let mut i: usize = 0;
    while i < n
        invariant
            i <= n,
            n == s@.len(),
            out@ == start + seq!['"'] + esc(s@.take(i as int)),
        decreases n - i,
    {
        proof {
            assert(s@.take(i + 1 as int).drop_last() =~= s@.take(i as int));
            assert(s@.take(i + 1 as int).last() == s@[i as int]);
        }
        let c = s.get_char(i);
        if c == '\\' {
            push_char(out, '\\');
            push_char(out, '\\');
        } else if c == '"' {
            push_char(out, '\\');
            push_char(out, '"');
        } else if c == '\n' {
            push_char(out, '\\');
            push_char(out, 'n');
        } else if c == '\r' {
            push_char(out, '\\');
            push_char(out, 'r');
        } else if c == '\t' {
            push_char(out, '\\');
            push_char(out, 't');
        } else {
            push_char(out, c);
        }
        proof {
            assert(out@ =~= start + seq!['"'] + esc(s@.take(i + 1 as int)));
        }
        i = i + 1;
    }
    push_char(out, '"');
    proof {
        assert(s@.take(n as int) =~= s@);
        assert(out@ =~= start + quoted_scalar(s@));
    }
}

/// The lines of an environment block.
pub open spec fn yaml_env_lines(e: Seq<(Seq<char>, Seq<char>)>) -> Seq<char>
    decreases e.len(),
{
    if e.len() == 0 {
        Seq::empty()
    } else {
        yaml_env_lines(e.drop_last()) + "      "@ + quoted_scalar(e.last().0) + ": "@
            + quoted_scalar(e.last().1) + "\n"@
    }
}

/// The environment section of a stanza: absent, an empty mapping, or a block
/// of one line per variable.
pub open spec fn yaml_env_block(env: Option<Seq<(Seq<char>, Seq<char>)>>) -> Seq<char> {
    match env {
        None => Seq::empty(),
        Some(e) => if e.len() == 0 {
            "    environment: {}\n"@
        } else {
            "    environment:\n"@ + yaml_env_lines(e)
        },
    }
}

/// The items of a sequence-valued key, one per line.
pub open spec fn yaml_items(items: Seq<Seq<char>>) -> Seq<char>
    decreases items.len(),
{
    if items.len() == 0 {
        Seq::empty()
    } else {
        yaml_items(items.drop_last()) + "      - "@ + quoted_scalar(items.last()) + "\n"@
    }
}

/// A sequence-valued key of a stanza, left out when it has no items.
pub open spec fn yaml_list_block(label: Seq<char>, items: Seq<Seq<char>>) -> Seq<char> {
    if items.len() == 0 {
        Seq::empty()
    } else {
        "    "@ + label + ":\n"@ + yaml_items(items)
    }
}

/// The restart line of a stanza, when it carries a restart policy.
pub open spec fn yaml_restart(r: Option<Seq<char>>) -> Seq<char> {
    match r {
        None => Seq::empty(),
        Some(policy) => "    restart: "@ + quoted_scalar(policy) + "\n"@,
    }
}

/// The healthcheck section of a stanza, when it carries one.
pub open spec fn yaml_healthcheck(h: Option<HealthcheckView>) -> Seq<char> {
    match h {
        None => Seq::empty(),
        Some(hc) => "    healthcheck:\n      test:\n        - \"CMD-SHELL\"\n        - "@
            + quoted_scalar(hc.test) + "\n      interval: \""@ + dec_str(hc.interval_secs as nat)
            + "s\"\n      timeout: \""@ + dec_str(hc.timeout_secs as nat) + "s\"\n      retries: "@
            + dec_str(hc.retries as nat) + "\n"@,
    }
}

/// One named stanza.
pub open spec fn yaml_stanza(name: Seq<char>, st: StanzaView) -> Seq<char> {
    "  "@ + quoted_scalar(name) + ":\n    image: "@ + quoted_scalar(st.image)
        + "\n    container_name: "@ + quoted_scalar(st.container_name) + "\n"@ + yaml_restart(
        st.restart,
    ) + yaml_env_block(st.environment) + yaml_list_block("ports"@, st.ports) + yaml_list_block(
        "volumes"@,
        st.volumes,
    ) + yaml_list_block("networks"@, st.networks) + yaml_list_block("depends_on"@, st.depends_on)
        + yaml_healthcheck(st.healthcheck)
}

/// All stanzas, in manifest order.
pub open spec fn yaml_services(s: Seq<(Seq<char>, StanzaView)>) -> Seq<char>
    decreases s.len(),
{
    if s.len() == 0 {
        Seq::empty()
    } else {
        yaml_services(s.drop_last()) + yaml_stanza(s.last().0, s.last().1)
    }
}

/// The named volumes, each an empty mapping.
pub open spec fn yaml_volumes(v: Seq<Seq<char>>) -> Seq<char>
    decreases v.len(),
{
    if v.len() == 0 {
        Seq::empty()
    } else {
        yaml_volumes(v.drop_last()) + "  "@ + quoted_scalar(v.last()) + ": {}\n"@
    }
}

/// The whole manifest document: the stanzas (an empty mapping when no
/// service is rendered), the named volumes where any exist, and the single
/// bridge network.
pub open spec fn yaml_manifest(m: ManifestView) -> Seq<char> {
    (if m.services.len() == 0 {
        "services: {}\n"@
    } else {
        "services:\n"@ + yaml_services(m.services)
    }) + (if m.volumes.len() > 0 {
        "volumes:\n"@ + yaml_volumes(m.volumes)
    } else {
        Seq::empty()
    }) + "networks:\n  "@ + quoted_scalar(m.network) + ":\n    driver: \"bridge\"\n"@
}

fn push_env_block(out: &mut String, env: &Option<Vec<(String, String)>>)
    ensures
        final(out)@ == old(out)@ + yaml_env_block(
            match env {
                Some(e) => Some(pairs_view(e@)),
                None => None,
            },
        ),
{
    let ghost start = out@;
    match env {
        None => {},
        Some(e) => {
            if e.len() == 0 {
                out.append("    environment: {}\n");
            } else {
                out.append("    environment:\n");
                let ghost ev = pairs_view(e@);
                let ghost mid = out@;
                let mut i: usize = 0;
                while i < e.len()
                    invariant
                        i <= e.len(),
                        ev == pairs_view(e@),
                        out@ == mid + yaml_env_lines(ev.take(i as int)),
                    decreases e.len() - i,
                {
                    proof {
                        assert(ev.take(i + 1 as int).drop_last() =~= ev.take(i as int));
                        assert(ev.take(i + 1 as int).last() == ev[i as int]);
                    }
                    out.append("      ");
                    push_quoted(out, e[i].0.as_str());
                    out.append(": ");
                    push_quoted(out, e[i].1.as_str());
                    out.append("\n");
                    proof {
                        assert(out@ =~= mid + yaml_env_lines(ev.take(i + 1 as int)));
                    }
                    i = i + 1;
                }
                proof {
                    assert(ev.take(ev.len() as int) =~= ev);
                }
            }
        },
    }
    proof {
        assert(final(out)@ =~= start + yaml_env_block(
            match env {
                Some(e) => Some(pairs_view(e@)),
                None => None,
            },
        ));
    }
}

fn push_list_block(out: &mut String, label: &str, items: &Vec<String>)
    ensures
        final(out)@ == old(out)@ + yaml_list_block(label@, strings_view(items@)),
{
    let ghost start = out@;
    if items.len() == 0 {
        proof {
            assert(start + yaml_list_block(label@, strings_view(items@)) =~= start);
        }
        return ;
    }
    out.append("    ");
    out.append(label);
    out.append(":\n");
    let ghost iv = strings_view(items@);
    let ghost mid = out@;
    let mut i: usize = 0;
    while i < items.len()
        invariant
            i <= items.len(),
            iv == strings_view(items@),
            out@ == mid + yaml_items(iv.take(i as int)),
        decreases items.len() - i,
    {
        proof {
            assert(iv.take(i + 1 as int).drop_last() =~= iv.take(i as int));
            assert(iv.take(i + 1 as int).last() == iv[i as int]);
        }
        out.append("      - ");
        push_quoted(out, items[i].as_str());
        out.append("\n");
        proof {
            assert(out@ =~= mid + yaml_items(iv.take(i + 1 as int)));
        }
        i = i + 1;
    }
    proof {
        assert(iv.take(iv.len() as int) =~= iv);
        assert(out@ =~= start + yaml_list_block(label@, iv));
    }
}

fn push_restart(out: &mut String, restart: &Option<String>)
    ensures
        final(out)@ == old(out)@ + yaml_restart(
            match restart {
                Some(p) => Some(p@),
                None => None,
            },
        ),
{
    let ghost start = out@;
    match restart {
        None => {},
        Some(policy) => {
            out.append("    restart: ");
            push_quoted(out, policy.as_str());
            out.append("\n");
        },
    }
    proof {
        assert(final(out)@ =~= start + yaml_restart(
            match restart {
                Some(p) => Some(p@),
                None => None,
            },
        ));
    }
}

fn push_healthcheck(out: &mut String, healthcheck: &Option<crate::manifest::Healthcheck>)
    ensures
        final(out)@ == old(out)@ + yaml_healthcheck(
            match healthcheck {
                Some(h) => Some(h@),
                None => None,
            },
        ),
{
    let ghost start = out@;
    match healthcheck {
        None => {},
        Some(hc) => {
            out.append("    healthcheck:\n      test:\n        - \"CMD-SHELL\"\n        - ");
            push_quoted(out, hc.test.as_str());
            out.append("\n      interval: \"");
            let iv = u64_to_string(hc.interval_secs as u64);
            out.append(iv.as_str());
            out.append("s\"\n      timeout: \"");
            let tv = u64_to_string(hc.timeout_secs as u64);
            out.append(tv.as_str());
            out.append("s\"\n      retries: ");
            let rv = u64_to_string(hc.retries as u64);
            out.append(rv.as_str());
            out.append("\n");
        },
    }
    proof {
        assert(final(out)@ =~= start + yaml_healthcheck(
            match healthcheck {
                Some(h) => Some(h@),
                None => None,
            },
        ));
    }
}

#[verifier::rlimit(100)]
fn push_stanza(out: &mut String, name: &str, st: &ServiceStanza)
    ensures
        final(out)@ == old(out)@ + yaml_stanza(name@, st@),
{
    let ghost start = out@;
    out.append("  ");
    push_quoted(out, name);
    out.append(":\n    image: ");
    push_quoted(out, st.image.as_str());
    out.append("\n    container_name: ");
    push_quoted(out, st.container_name.as_str());
    out.append("\n");
    let ghost head = "  "@ + quoted_scalar(name@) + ":\n    image: "@ + quoted_scalar(st@.image)
        + "\n    container_name: "@ + quoted_scalar(st@.container_name) + "\n"@;
    proof {
        assert(out@ =~= start + head);
    }
    push_restart(out, &st.restart);
    let ghost g1 = start + head + yaml_restart(st@.restart);
    proof {
        assert(out@ =~= g1);
    }
    push_env_block(out, &st.environment);
    let ghost g2 = g1 + yaml_env_block(st@.environment);
    push_list_block(out, "ports", &st.ports);
    let ghost g3 = g2 + yaml_list_block("ports"@, st@.ports);
    push_list_block(out, "volumes", &st.volumes);
    let ghost g4 = g3 + yaml_list_block("volumes"@, st@.volumes);
    push_list_block(out, "networks", &st.networks);
    let ghost g5 = g4 + yaml_list_block("networks"@, st@.networks);
    push_list_block(out, "depends_on", &st.depends_on);
    let ghost g6 = g5 + yaml_list_block("depends_on"@, st@.depends_on);
    push_healthcheck(out, &st.healthcheck);
    proof {
        assert(out@ =~= g6 + yaml_healthcheck(st@.healthcheck));
        assert(out@ =~= start + yaml_stanza(name@, st@));
    }
}

/// Renders the manifest into its document text. Pure and deterministic for a
/// given manifest value.
pub fn render(m: &Manifest) -> (r: String)
    ensures
        r@ == yaml_manifest(m@),
{
    let mut out = String::new();
    if m.services.len() == 0 {
        out.append("services: {}\n");
    } else {
        out.append("services:\n");
        let ghost sv = m@.services;
        let ghost mid = out@;
        let mut i: usize = 0;
        while i < m.services.len()
            invariant
                i <= m.services.len(),
                sv == m@.services,
                out@ == mid + yaml_services(sv.take(i as int)),
            decreases m.services.len() - i,
        {
            proof {
                assert(sv.take(i + 1 as int).drop_last() =~= sv.take(i as int));
                assert(sv.take(i + 1 as int).last() == sv[i as int]);
            }
            push_stanza(&mut out, m.services[i].0.as_str(), &m.services[i].1);
            proof {
                assert(out@ =~= mid + yaml_services(sv.take(i + 1 as int)));
            }
            i = i + 1;
        }
        proof {
            assert(sv.take(sv.len() as int) =~= sv);
        }
    }
    if m.volumes.len() > 0 {
        out.append("volumes:\n");
        let ghost vv = m@.volumes;
        let ghost mid2 = out@;
        let mut j: usize = 0;
        while j < m.volumes.len()
            invariant
                j <= m.volumes.len(),
                vv == m@.volumes,
                out@ == mid2 + yaml_volumes(vv.take(j as int)),
            decreases m.volumes.len() - j,
        {
            proof {
                assert(vv.take(j + 1 as int).drop_last() =~= vv.take(j as int));
                assert(vv.take(j + 1 as int).last() == vv[j as int]);
            }
            out.append("  ");
            push_quoted(&mut out, m.volumes[j].as_str());
            out.append(": {}\n");
            proof {
                assert(out@ =~= mid2 + yaml_volumes(vv.take(j + 1 as int)));
            }
            j = j + 1;
        }
        proof {
            assert(vv.take(vv.len() as int) =~= vv);
        }
    }
    out.append("networks:\n  ");
    push_quoted(&mut out, m.network.as_str());
    out.append(":\n    driver: \"bridge\"\n");
    proof {
        assert(out@ =~= yaml_manifest(m@));
    }
    out
}

/// Renders a project's manifest text directly: generation then rendering.
pub fn generate_compose(project: &crate::config::ProjectConfig) -> (r: String)
    ensures
        r@ == yaml_manifest(crate::manifest::manifest_spec(project@)),
{
    let m = crate::manifest::generate(project);
    render(&m)
}

} // verus!
