//! Writing the tables out as source text: the declaration of the table type,
//! and one constant for each build.

use vstd::prelude::*;
use vstd::string::StringExecFns;
use crate::aob_scans::{
    aob_catalog,
    aobs,
    catalog_view,
    failed_in,
    failures_view,
    find_aobs,
    found_in,
    offsets_view,
    sort_by_name,
    ScanReport,
};
use crate::text::{decimal, decimal_2, hex, push_decimal, push_decimal_2, push_hex};
use crate::version::Version;

verus! {

/// The snake-case form that `heck` gives a name, such as `world_chr_man` for
/// `WorldChrMan`.
pub uninterp spec fn snake_case_of(name: Seq<char>) -> Seq<char>;

/// Calls `heck::AsSnakeCase` on `name` and collects what it displays. The
/// conversion reads nothing but the name, so the result is the snake-case
/// form of that name, whatever it is.
#[verifier::external_body]
fn snake_case(name: &str) -> (snake: String)
    ensures
        snake@ == snake_case_of(name@),
{
    heck::AsSnakeCase(name).to_string()
}

/// The line that declares the field `field`.
pub open spec fn field_line(field: Seq<char>) -> Seq<char> {
    "    pub "@ + field + ": usize,\n"@
}

/// The line that moves the field `field` up by the base.
pub open spec fn rebase_line(field: Seq<char>) -> Seq<char> {
    "            "@ + field + ": self."@ + field + " + base,\n"@
}

/// The line that gives the field `field` the value `offset`, in hexadecimal.
pub open spec fn offset_line(field: Seq<char>, offset: int) -> Seq<char> {
    "    "@ + field + ": 0x"@ + hex(offset as nat) + ",\n"@
}

/// One line for each signature: the declaration of its field.
pub open spec fn field_lines(catalog: Seq<(Seq<char>, Seq<char>)>) -> Seq<char>
    decreases catalog.len(),
{
    if catalog.len() == 0 {
        Seq::empty()
    } else {
        field_lines(catalog.drop_last()) + field_line(snake_case_of(catalog.last().0))
    }
}

/// One line for each signature: its field moved up by the base.
pub open spec fn rebase_lines(catalog: Seq<(Seq<char>, Seq<char>)>) -> Seq<char>
    decreases catalog.len(),
{
    if catalog.len() == 0 {
        Seq::empty()
    } else {
        rebase_lines(catalog.drop_last()) + rebase_line(snake_case_of(catalog.last().0))
    }
}

/// The declaration of the table type with a field for each signature of
/// `catalog`, and of the method that rebases a table.
pub open spec fn struct_text(catalog: Seq<(Seq<char>, Seq<char>)>) -> Seq<char> {
    "pub struct BaseAddresses {\n"@ + field_lines(catalog) + "}\n\n"@ + "impl BaseAddresses {\n"@
        + "    pub fn with_module_base_addr(self, base: usize) -> BaseAddresses {\n"@
        + "        BaseAddresses {\n"@ + rebase_lines(catalog) + "        }\n    }\n}\n\n"@
}

/// One line for each entry of a table: its field and its offset.
pub open spec fn offset_lines(table: Seq<(Seq<char>, int)>) -> Seq<char>
    decreases table.len(),
{
    if table.len() == 0 {
        Seq::empty()
    } else {
        offset_lines(table.drop_last()) + offset_line(
            snake_case_of(table.last().0),
            table.last().1,
        )
    }
}

/// The constant that holds the table of the build `version`.
pub open spec fn version_text(version: Version, table: Seq<(Seq<char>, int)>) -> Seq<char> {
    "pub const BASE_ADDRESSES_"@ + decimal(version.0 as nat) + "_"@ + decimal_2(version.1 as nat)
        + "_"@ + decimal(version.2 as nat) + ": BaseAddresses = BaseAddresses {\n"@ + offset_lines(
        table,
    ) + "};\n\n"@
}

/// The builds as their versions and the bytes of their snapshots.
pub open spec fn builds_view(builds: Seq<(Version, Vec<u8>)>) -> Seq<(Version, Seq<u8>)> {
    Seq::new(builds.len(), |i: int| (builds[i].0, builds[i].1@))
}

/// Appends the line that declares the field `field`.
pub fn push_field_line(generated: &mut String, field: &str)
    ensures
        final(generated)@ == old(generated)@ + field_line(field@),
{
    generated.append("    pub ");
    generated.append(field);
    generated.append(": usize,\n");
}

/// Appends the line that moves the field `field` up by the base.
pub fn push_rebase_line(generated: &mut String, field: &str)
    ensures
        final(generated)@ == old(generated)@ + rebase_line(field@),
{
    generated.append("            ");
    generated.append(field);
    generated.append(": self.");
    generated.append(field);
    generated.append(" + base,\n");
}

/// Appends the line that gives the field `field` the value `offset`.
pub fn push_offset_line(generated: &mut String, field: &str, offset: usize)
    ensures
        final(generated)@ == old(generated)@ + offset_line(field@, offset as int),
{
    generated.append("    ");
    generated.append(field);
    generated.append(": 0x");
    push_hex(generated, offset as u64);
    generated.append(",\n");
}

/// Writes the declaration of the table type for the signatures of the
/// catalog.
pub fn codegen_struct() -> (generated: String)
    ensures
        generated@ == struct_text(aob_catalog()),
{
    let catalog = aobs();
    let ghost all = catalog_view(catalog@);
    let mut generated = String::new();
    generated.append("pub struct BaseAddresses {\n");
    let ghost head = generated@;
    let mut i: usize = 0;
    while i < catalog.len()
        invariant
            i <= catalog@.len(),
            all == catalog_view(catalog@),
            generated@ == head + field_lines(all.take(i as int)),
        decreases catalog@.len() - i,
    {
        let field = snake_case(catalog[i].0);
        assert(all.take(i + 1).drop_last() =~= all.take(i as int));
        push_field_line(&mut generated, field.as_str());
        i += 1;
    }
    assert(all.take(i as int) =~= all);
    generated.append("}\n\n");
    generated.append("impl BaseAddresses {\n");
    generated.append("    pub fn with_module_base_addr(self, base: usize) -> BaseAddresses {\n");
    generated.append("        BaseAddresses {\n");
    let ghost middle = generated@;
    let mut i: usize = 0;
    while i < catalog.len()
        invariant
            i <= catalog@.len(),
            all == catalog_view(catalog@),
            generated@ == middle + rebase_lines(all.take(i as int)),
        decreases catalog@.len() - i,
    {
        let field = snake_case(catalog[i].0);
        assert(all.take(i + 1).drop_last() =~= all.take(i as int));
        push_rebase_line(&mut generated, field.as_str());
        i += 1;
    }
    assert(all.take(i as int) =~= all);
    generated.append("        }\n    }\n}\n\n");
    generated
}

/// Writes the constant that holds the table of one build.
pub fn codegen_version(ver: &Version, aobs: &Vec<(&'static str, usize)>) -> (generated: String)
    ensures
        generated@ == version_text(*ver, offsets_view(aobs@)),
{
    let ghost table = offsets_view(aobs@);
    let mut generated = String::new();
    generated.append("pub const BASE_ADDRESSES_");
    push_decimal(&mut generated, ver.0 as u64);
    generated.append("_");
    push_decimal_2(&mut generated, ver.1 as u64);
    generated.append("_");
    push_decimal(&mut generated, ver.2 as u64);
    generated.append(": BaseAddresses = BaseAddresses {\n");
    let ghost head = generated@;
    let mut i: usize = 0;
    while i < aobs.len()
        invariant
            i <= aobs@.len(),
            table == offsets_view(aobs@),
            generated@ == head + offset_lines(table.take(i as int)),
        decreases aobs@.len() - i,
    {
        let (name, offset) = aobs[i];
        let field = snake_case(name);
        assert(table.take(i + 1).drop_last() =~= table.take(i as int));
        push_offset_line(&mut generated, field.as_str(), offset);
        i += 1;
    }
    assert(table.take(i as int) =~= table);
    generated.append("};\n\n");
    generated
}

/// The constants of the builds, one after the other, each with its table.
pub open spec fn tables_text(tables: Seq<(Version, Seq<(Seq<char>, int)>)>) -> Seq<char>
    decreases tables.len(),
{
    if tables.len() == 0 {
        Seq::empty()
    } else {
        tables_text(tables.drop_last()) + version_text(tables.last().0, tables.last().1)
    }
}

/// The builds as their versions and the tables that were made for them.
pub open spec fn tables_view(tables: Seq<(Version, ScanReport)>) -> Seq<
    (Version, Seq<(Seq<char>, int)>),
> {
    Seq::new(tables.len(), |i: int| (tables[i].0, offsets_view(tables[i].1.offsets@)))
}

/// The tables that the scans of the builds' snapshots give.
pub open spec fn scanned(builds: Seq<(Version, Seq<u8>)>) -> Seq<(Version, Seq<(Seq<char>, int)>)> {
    Seq::new(
        builds.len(),
        |i: int| (builds[i].0, sort_by_name(found_in(builds[i].1, aob_catalog()))),
    )
}

/// Writes the tables out: the type first, then one constant for each build,
/// in the order given.
pub fn codegen_base_addresses(tables: &Vec<(Version, ScanReport)>) -> (generated: String)
    ensures
        generated@ == struct_text(aob_catalog()) + tables_text(tables_view(tables@)),
{
    let ghost all = tables_view(tables@);
    let mut generated = codegen_struct();
    let ghost head = generated@;
    let mut i: usize = 0;
    while i < tables.len()
        invariant
            i <= tables@.len(),
            all == tables_view(tables@),
            generated@ == head + tables_text(all.take(i as int)),
        decreases tables@.len() - i,
    {
        let text = codegen_version(&tables[i].0, &tables[i].1.offsets);
        assert(all.take(i + 1).drop_last() =~= all.take(i as int));
        generated.append(text.as_str());
        i += 1;
    }
    assert(all.take(i as int) =~= all);
    generated
}

/// What the offline workflow gives: the source text of the tables, and for
/// each build its version and the report of its scan.
#[derive(Debug)]
pub struct Generated {
    pub source: String,
    pub reports: Vec<(Version, ScanReport)>,
}

/// Scans the snapshot of each build and writes the tables out.
pub fn get_base_addresses(builds: &Vec<(Version, Vec<u8>)>) -> (generated: Generated)
    ensures
        generated.source@ == struct_text(aob_catalog()) + tables_text(
            scanned(builds_view(builds@)),
        ),
        tables_view(generated.reports@) == scanned(builds_view(builds@)),
        forall|i: int|
            0 <= i < builds@.len() ==> failures_view(
                (#[trigger] generated.reports@[i]).1.failures@,
            ) == failed_in(builds@[i].1@, aob_catalog()),
{
    let ghost all = scanned(builds_view(builds@));
    let mut reports: Vec<(Version, ScanReport)> = Vec::new();
    let mut i: usize = 0;
    while i < builds.len()
        invariant
            i <= builds@.len(),
            all == scanned(builds_view(builds@)),
            reports@.len() == i,
            tables_view(reports@) == all.take(i as int),
            forall|j: int|
                0 <= j < i ==> failures_view((#[trigger] reports@[j]).1.failures@) == failed_in(
                    builds@[j].1@,
                    aob_catalog(),
                ),
        decreases builds@.len() - i,
    {
        let report = find_aobs(builds[i].1.as_slice());
        reports.push((builds[i].0, report));
        i += 1;
    }
    assert(all.take(i as int) =~= all);
    let source = codegen_base_addresses(&reports);
    Generated { source, reports }
}

} // verus!
