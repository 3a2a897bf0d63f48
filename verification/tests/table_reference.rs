use trino_connector::{Dataset, TableReference, Trino};

fn spelled(path: &str) -> TableReference {
    let dataset = Dataset {
        name: "d".to_string(),
        path: path.to_string(),
        schema: None,
    };
    let trino = Trino { trino_factory: () };
    let (request, _) = trino.read_provider(&dataset);
    request.table_reference
}

fn bare(table: &str) -> TableReference {
    TableReference::Bare { table: table.to_string() }
}

fn partial(schema: &str, table: &str) -> TableReference {
    TableReference::Partial {
        schema: schema.to_string(),
        table: table.to_string(),
    }
}

fn full(catalog: &str, schema: &str, table: &str) -> TableReference {
    TableReference::Full {
        catalog: catalog.to_string(),
        schema: schema.to_string(),
        table: table.to_string(),
    }
}

#[test]
fn up_to_three_names_are_told_apart() {
    assert_eq!(spelled("test"), bare("test"));
    assert_eq!(spelled("default.test"), partial("default", "test"));
    assert_eq!(spelled("memory.default.test"), full("memory", "default", "test"));
}

#[test]
fn names_are_folded_to_lower_case() {
    assert_eq!(spelled("Memory.DEFAULT.tEsT"), full("memory", "default", "test"));
    assert_eq!(spelled("AZ_az09"), bare("az_az09"));
}

#[test]
fn identifiers_begin_with_letters_or_underscores() {
    assert_eq!(spelled("_a._b._c1"), full("_a", "_b", "_c1"));
    assert_eq!(spelled("_"), bare("_"));
}

#[test]
fn letters_that_begin_literals_begin_names_too() {
    for name in ["b", "r", "n", "nq", "q", "e", "u", "x", "e1", "x1f", "B2", "select"] {
        let lower = name.to_ascii_lowercase();
        assert_eq!(spelled(name), bare(&lower));
        assert_eq!(
            spelled(&format!("{name}.{name}.{name}")),
            full(&lower, &lower, &lower)
        );
    }
}

#[test]
fn a_longer_path_is_one_name() {
    assert_eq!(spelled("a.b.c.D"), bare("a.b.c.D"));
    assert_eq!(spelled("a.b.c.d.e"), bare("a.b.c.d.e"));
}

#[test]
fn quoted_names_keep_their_case() {
    assert_eq!(spelled("memory.\"De.Fault\".test"), full("memory", "De.Fault", "test"));
}

#[test]
fn a_path_that_is_no_identifier_is_one_name() {
    assert_eq!(spelled("TABLE()"), bare("TABLE()"));
    assert_eq!(spelled("a."), bare("a."));
    assert_eq!(spelled(""), bare(""));
}

#[test]
fn a_reference_spells_itself() {
    assert_eq!(spelled("Memory.Default"), partial("memory", "default"));
    assert_eq!(spelled("memory.default"), partial("memory", "default"));
}
