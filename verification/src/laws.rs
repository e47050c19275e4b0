//! The laws the library promises, proved from the same specifications its
//! functions are verified against: the parser is a pure function of its
//! input, well-formed block-structured input parses to exactly one record
//! per block with the block's core lines in order, and the topology
//! classification marks exactly the first holder of each core identity as
//! the real core.
use vstd::prelude::*;

use crate::sensor::ParseState;
use crate::sensor::spec_add_core;
use crate::sensor::spec_flush;
use crate::sensor::spec_is_adapter_line;
use crate::sensor::spec_is_core_line;
use crate::sensor::spec_is_package_line;
use crate::sensor::spec_new_package;
use crate::sensor::spec_parse_lines;
use crate::sensor::spec_parse_lines_from;
use crate::sensor::spec_parse_sensor;
use crate::sensor::spec_parse_step;
use crate::sensor::spec_update_package;
use crate::sensor::PackageRead;
use crate::msr::spec_core_id_of;
use crate::msr::spec_core_type_at;
use crate::msr::CpuReadsV;

verus! {

/// Parsing is a pure function of the captured text: two parses of the
/// same text yield the same structured records.
pub proof fn lemma_parse_deterministic(a: Seq<char>, b: Seq<char>)
    requires
        a == b,
    ensures
        spec_parse_sensor(a) == spec_parse_sensor(b),
{
}

/// Running the parser over lines without the final flush.
pub open spec fn spec_parse_run(lines: Seq<Seq<char>>, st: ParseState) -> ParseState
    decreases lines.len(),
{
    if lines.len() == 0 {
        st
    } else {
        spec_parse_run(lines.drop_first(), spec_parse_step(st, lines[0]))
    }
}

/// Parsing a sequence of lines is running the parser and flushing at the
/// end.
pub proof fn lemma_parse_lines_is_run(lines: Seq<Seq<char>>, st: ParseState)
    ensures
        spec_parse_lines_from(lines, st) == spec_flush(spec_parse_run(lines, st)),
    decreases lines.len(),
{
    if lines.len() > 0 {
        lemma_parse_lines_is_run(lines.drop_first(), spec_parse_step(st, lines[0]));
    }
}

/// The run over concatenated lines is the run over the second part started
/// from the first part's end state.
pub proof fn lemma_run_append(l1: Seq<Seq<char>>, l2: Seq<Seq<char>>, st: ParseState)
    ensures
        spec_parse_run(l1 + l2, st) == spec_parse_run(l2, spec_parse_run(l1, st)),
    decreases l1.len(),
{
    if l1.len() == 0 {
        assert(l1 + l2 =~= l2);
    } else {
        assert((l1 + l2).drop_first() =~= l1.drop_first() + l2);
        assert((l1 + l2)[0] == l1[0]);
        lemma_run_append(l1.drop_first(), l2, spec_parse_step(st, l1[0]));
    }
}

/// One well-formed section of the sensor tool's output: the adapter line
/// that opens it, one package line, and its core lines.
pub struct SensorBlock {
    pub adapter_line: Seq<char>,
    pub package_line: Seq<char>,
    pub core_lines: Seq<Seq<char>>,
}

/// The block's lines are classified as its roles say: the adapter line
/// carries the adapter marker; the package line carries the package marker
/// and no adapter marker; each core line carries the core marker and
/// neither of the other two.
pub open spec fn spec_block_wf(b: SensorBlock) -> bool {
    spec_is_adapter_line(b.adapter_line) && spec_is_package_line(b.package_line)
        && !spec_is_adapter_line(b.package_line) && (forall|i: int|
        0 <= i < b.core_lines.len() ==> spec_is_core_line(#[trigger] b.core_lines[i])
            && !spec_is_adapter_line(b.core_lines[i]) && !spec_is_package_line(b.core_lines[i]))
}

/// The block's lines, in input order.
pub open spec fn spec_block_lines(b: SensorBlock) -> Seq<Seq<char>> {
    seq![b.adapter_line, b.package_line] + b.core_lines
}

/// The pending package after the block's core lines have been added.
pub open spec fn spec_add_cores(p: PackageRead, cores: Seq<Seq<char>>) -> PackageRead
    decreases cores.len(),
{
    if cores.len() == 0 {
        p
    } else {
        spec_add_cores(spec_add_core(p, cores[0]), cores.drop_first())
    }
}

/// The record one well-formed block parses to: the package the adapter
/// line opens, filled by the package line, with one core appended per
/// core line that carries enough tokens.
pub open spec fn spec_block_package(b: SensorBlock) -> PackageRead {
    spec_add_cores(spec_update_package(spec_new_package(b.adapter_line), b.package_line), b.core_lines)
}

/// Running the parser over core lines only adds their cores to the
/// pending package.
proof fn lemma_run_core_lines(cores: Seq<Seq<char>>, done: Seq<PackageRead>, p: PackageRead)
    requires
        forall|i: int|
            0 <= i < cores.len() ==> spec_is_core_line(#[trigger] cores[i]) && !spec_is_adapter_line(
                cores[i],
            ) && !spec_is_package_line(cores[i]),
    ensures
        spec_parse_run(cores, (done, Some(p))) == (done, Some(spec_add_cores(p, cores))),
    decreases cores.len(),
{
    if cores.len() > 0 {
        assert(spec_is_core_line(cores[0]));
        assert(spec_parse_step((done, Some(p)), cores[0]) == (
            done,
            Some(spec_add_core(p, cores[0])),
        ));
        assert(forall|i: int|
            0 <= i < cores.drop_first().len() ==> #[trigger] cores.drop_first()[i] == cores[i + 1]);
        lemma_run_core_lines(cores.drop_first(), done, spec_add_core(p, cores[0]));
    }
}

/// Running the parser over one well-formed block flushes whatever was
/// pending and leaves the block's own record pending.
proof fn lemma_run_block(b: SensorBlock, st: ParseState)
    requires
        spec_block_wf(b),
    ensures
        spec_parse_run(spec_block_lines(b), st) == (
            spec_flush(st),
            Some(spec_block_package(b)),
        ),
{
    let l = spec_block_lines(b);
    assert(l[0] == b.adapter_line);
    assert(l[1] == b.package_line);
    let st1 = spec_parse_step(st, b.adapter_line);
    assert(st1 == (spec_flush(st), Some(spec_new_package(b.adapter_line))));
    let st2 = spec_parse_step(st1, b.package_line);
    assert(st2 == (
        spec_flush(st),
        Some(spec_update_package(spec_new_package(b.adapter_line), b.package_line)),
    ));
    assert(l.drop_first().drop_first() =~= b.core_lines);
    assert(l.drop_first()[0] == b.package_line);
    lemma_run_core_lines(
        b.core_lines,
        spec_flush(st),
        spec_update_package(spec_new_package(b.adapter_line), b.package_line),
    );
    assert(spec_parse_run(l, st) == spec_parse_run(l.drop_first(), st1));
    assert(spec_parse_run(l.drop_first(), st1) == spec_parse_run(l.drop_first().drop_first(), st2));
}

/// The lines of a sequence of blocks, concatenated in order.
pub open spec fn spec_blocks_lines(blocks: Seq<SensorBlock>) -> Seq<Seq<char>>
    decreases blocks.len(),
{
    if blocks.len() == 0 {
        Seq::empty()
    } else {
        spec_block_lines(blocks[0]) + spec_blocks_lines(blocks.drop_first())
    }
}

/// Every block of the sequence is well formed.
pub open spec fn spec_blocks_wf(blocks: Seq<SensorBlock>) -> bool {
    forall|i: int| 0 <= i < blocks.len() ==> spec_block_wf(#[trigger] blocks[i])
}

/// Running the parser over a sequence of well-formed blocks: the earlier
/// pending package is flushed first, then each block contributes exactly
/// its own record, and the last block's record is left pending.
proof fn lemma_run_blocks(blocks: Seq<SensorBlock>, st: ParseState)
    requires
        spec_blocks_wf(blocks),
        blocks.len() > 0,
    ensures
        spec_parse_run(spec_blocks_lines(blocks), st) == (
            spec_flush(st) + Seq::new((blocks.len() - 1) as nat, |i: int| spec_block_package(blocks[i])),
            Some(spec_block_package(blocks.last())),
        ),
    decreases blocks.len(),
{
    lemma_run_append(spec_block_lines(blocks[0]), spec_blocks_lines(blocks.drop_first()), st);
    lemma_run_block(blocks[0], st);
    let st1: ParseState = (spec_flush(st), Some(spec_block_package(blocks[0])));
    if blocks.len() == 1 {
        assert(spec_blocks_lines(blocks.drop_first()) =~= Seq::<Seq<char>>::empty());
        assert(spec_parse_run(spec_blocks_lines(blocks), st) == st1);
        assert(spec_flush(st) + Seq::new(0nat, |i: int| spec_block_package(blocks[i])) =~= spec_flush(
            st,
        ));
        assert(blocks.last() == blocks[0]);
    } else {
        assert(forall|i: int|
            0 <= i < blocks.drop_first().len() ==> #[trigger] blocks.drop_first()[i] == blocks[i
                + 1]);
        assert(spec_blocks_wf(blocks.drop_first()));
        lemma_run_blocks(blocks.drop_first(), st1);
        assert(spec_flush(st1) =~= spec_flush(st).push(spec_block_package(blocks[0])));
        assert(blocks.drop_first().last() == blocks.last());
        assert(spec_flush(st).push(spec_block_package(blocks[0])) + Seq::new(
            (blocks.drop_first().len() - 1) as nat,
            |i: int| spec_block_package(blocks.drop_first()[i]),
        ) =~= spec_flush(st) + Seq::new(
            (blocks.len() - 1) as nat,
            |i: int| spec_block_package(blocks[i]),
        ));
    }
}

/// Block-structured input parses to one record per block, in input order.
/// For input made of well-formed sections — each an adapter line, one
/// package line, then core lines — the parser produces exactly one package
/// record per section, holding that section's package fields and exactly
/// its core lines' readings, in order of appearance.
pub proof fn lemma_parse_blocks(blocks: Seq<SensorBlock>)
    requires
        spec_blocks_wf(blocks),
    ensures
        spec_parse_lines(spec_blocks_lines(blocks)) == Seq::new(
            blocks.len(),
            |i: int| spec_block_package(blocks[i]),
        ),
{
    let init: ParseState = (Seq::empty(), None);
    lemma_parse_lines_is_run(spec_blocks_lines(blocks), init);
    if blocks.len() == 0 {
        assert(spec_blocks_lines(blocks) =~= Seq::<Seq<char>>::empty());
        assert(spec_parse_lines(spec_blocks_lines(blocks)) =~= Seq::<PackageRead>::empty());
        assert(Seq::new(0nat, |i: int| spec_block_package(blocks[i])) =~= Seq::<
            PackageRead,
        >::empty());
    } else {
        lemma_run_blocks(blocks, init);
        assert(spec_flush(init) =~= Seq::<PackageRead>::empty());
        let run = spec_parse_run(spec_blocks_lines(blocks), init);
        assert(spec_flush(run) =~= run.0.push(spec_block_package(blocks.last())));
        assert(Seq::<PackageRead>::empty() + Seq::new(
            (blocks.len() - 1) as nat,
            |i: int| spec_block_package(blocks[i]),
        ) =~= Seq::new((blocks.len() - 1) as nat, |i: int| spec_block_package(blocks[i])));
        assert(Seq::new((blocks.len() - 1) as nat, |i: int| spec_block_package(blocks[i])).push(
            spec_block_package(blocks.last()),
        ) =~= Seq::new(blocks.len(), |i: int| spec_block_package(blocks[i])));
    }
}

/// The first processor seen with a core identity is the real core; every
/// later processor sharing that identity is a hyperthread sibling; an
/// unknown identity is never classified as either.
pub proof fn lemma_topology_classification(rs: Seq<CpuReadsV>, i: int)
    requires
        0 <= i < rs.len(),
    ensures
        spec_core_id_of(rs[i].cs) == "N/A"@ ==> spec_core_type_at(rs, i) == "Unknown"@,
        spec_core_id_of(rs[i].cs) != "N/A"@ && (forall|j: int|
            0 <= j < i ==> spec_core_id_of(#[trigger] rs[j].cs) != spec_core_id_of(rs[i].cs))
            ==> spec_core_type_at(rs, i) == "Real Core"@,
        spec_core_id_of(rs[i].cs) != "N/A"@ && (exists|j: int|
            0 <= j < i && spec_core_id_of(#[trigger] rs[j].cs) == spec_core_id_of(rs[i].cs))
            ==> spec_core_type_at(rs, i) == "Virtual Thread"@,
{
}

} // verus!
