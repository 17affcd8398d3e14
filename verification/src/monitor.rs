//! Parsing of the engine's per-container resource statistics. Running the
//! statistics command and the system-level sampling belong to the caller;
//! every line handed back is parsed here.

use vstd::prelude::*;

use crate::strutil::{split_all, split_limit, splitn_char, strip_cr, strip_trailing_cr};
use crate::supervisor::{field_or_empty, EngineCommand};

verus! {

broadcast use vstd::prelude::Seq::group_seq_extra;

/// One container's resource statistics, as the engine reports them.
#[derive(Debug)]
pub struct ContainerStats {
    pub name: String,
    pub cpu_percent: String,
    pub mem_usage: String,
    pub mem_percent: String,
    pub net_io: String,
    pub block_io: String,
}

/// The mathematical image of a `ContainerStats`.
#[verifier::ext_equal]
pub struct ContainerStatsView {
    pub name: Seq<char>,
    pub cpu_percent: Seq<char>,
    pub mem_usage: Seq<char>,
    pub mem_percent: Seq<char>,
    pub net_io: Seq<char>,
    pub block_io: Seq<char>,
}

impl View for ContainerStats {
    type V = ContainerStatsView;

    open spec fn view(&self) -> ContainerStatsView {
        ContainerStatsView {
            name: self.name@,
            cpu_percent: self.cpu_percent@,
            mem_usage: self.mem_usage@,
            mem_percent: self.mem_percent@,
            net_io: self.net_io@,
            block_io: self.block_io@,
        }
    }
}

impl Clone for ContainerStats {
    fn clone(&self) -> (r: Self)
        ensures
            r@ == self@,
    {
        ContainerStats {
            name: self.name.clone(),
            cpu_percent: self.cpu_percent.clone(),
            mem_usage: self.mem_usage.clone(),
            mem_percent: self.mem_percent.clone(),
            net_io: self.net_io.clone(),
            block_io: self.block_io.clone(),
        }
    }
}

/// The field layout the statistics listing asks the engine for.
pub open spec fn stats_format() -> Seq<char> {
    "{{.Name}}|{{.CPUPerc}}|{{.MemUsage}}|{{.MemPerc}}|{{.NetIO}}|{{.BlockIO}}"@
}

/// The exact command that samples every container's resource use once.
pub fn stats_command() -> (c: EngineCommand)
    ensures
        c@.program == "docker"@,
        c@.args == seq!["stats"@, "--no-stream"@, "--format"@, stats_format()],
{
    let mut args: Vec<String> = Vec::new();
    args.push("stats".to_owned());
    args.push("--no-stream".to_owned());
    args.push("--format".to_owned());
    args.push("{{.Name}}|{{.CPUPerc}}|{{.MemUsage}}|{{.MemPerc}}|{{.NetIO}}|{{.BlockIO}}".to_owned());
    let c = EngineCommand { program: "docker".to_owned(), args };
    proof {
        assert(c@.args =~= seq!["stats"@, "--no-stream"@, "--format"@, stats_format()]);
    }
    c
}

/// The statistics record one line denotes: the line split at `|` into at
/// most six fields, the last keeping any further delimiters, missing
/// trailing fields filled with empty strings.
pub open spec fn parse_stats_view(line: Seq<char>) -> ContainerStatsView {
    let f = split_limit(line, 6, '|');
    ContainerStatsView {
        name: field_or_empty(f, 0),
        cpu_percent: field_or_empty(f, 1),
        mem_usage: field_or_empty(f, 2),
        mem_percent: field_or_empty(f, 3),
        net_io: field_or_empty(f, 4),
        block_io: field_or_empty(f, 5),
    }
}

fn stats_field(fields: &Vec<String>, i: usize) -> (r: String)
    ensures
        r@ == field_or_empty(fields@.map_values(|t: String| t@), i as int),
{
    if i < fields.len() {
        fields[i].clone()
    } else {
        String::new()
    }
}

/// Parses one statistics line into a record.
pub fn parse_stats_line(line: &str) -> (r: ContainerStats)
    ensures
        r@ == parse_stats_view(line@),
{
    let fields = splitn_char(line, '|', 6);
    ContainerStats {
        name: stats_field(&fields, 0),
        cpu_percent: stats_field(&fields, 1),
        mem_usage: stats_field(&fields, 2),
        mem_percent: stats_field(&fields, 3),
        net_io: stats_field(&fields, 4),
        block_io: stats_field(&fields, 5),
    }
}

/// The records of a whole statistics listing: one per non-empty line.
pub open spec fn stats_of_lines(lines: Seq<Seq<char>>) -> Seq<ContainerStatsView>
    decreases lines.len(),
{
    if lines.len() == 0 {
        Seq::empty()
    } else {
        let rest = stats_of_lines(lines.drop_last());
        let l = strip_cr(lines.last());
        if l.len() > 0 {
            rest.push(parse_stats_view(l))
        } else {
            rest
        }
    }
}

/// The records the engine's whole statistics output denotes.
pub open spec fn parse_stats_output_view(text: Seq<char>) -> Seq<ContainerStatsView> {
    stats_of_lines(split_all(text, '\n'))
}

/// Parses the engine's statistics listing: each non-empty line becomes one
/// record.
pub fn parse_stats_output(text: &str) -> (r: Vec<ContainerStats>)
    ensures
        r@.map_values(|c: ContainerStats| c@) == parse_stats_output_view(text@),
{
    let lines = crate::strutil::split_char(text, '\n');
    let ghost lviews = lines@.map_values(|t: String| t@);
    let mut out: Vec<ContainerStats> = Vec::new();
    let mut i: usize = 0;
    while i < lines.len()
        invariant
            i <= lines.len(),
            lviews == lines@.map_values(|t: String| t@),
            lviews == split_all(text@, '\n'),
            out@.map_values(|c: ContainerStats| c@) == stats_of_lines(lviews.take(i as int)),
        decreases lines.len() - i,
    {
        proof {
            assert(lviews.take(i + 1 as int).drop_last() =~= lviews.take(i as int));
            assert(lviews.take(i + 1 as int).last() == lviews[i as int]);
        }
        let stripped = strip_trailing_cr(lines[i].as_str());
        if !stripped.as_str().is_empty() {
            out.push(parse_stats_line(stripped.as_str()));
            proof {
                assert(out@.map_values(|c: ContainerStats| c@) =~= stats_of_lines(
                    lviews.take(i + 1 as int),
                ));
            }
        }
        i = i + 1;
    }
    proof {
        assert(lviews.take(lviews.len() as int) =~= lviews);
    }
    out
}

} // verus!
