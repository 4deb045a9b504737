use vstd::prelude::*;
use vstd::string::*;
use crate::interrupt::Interrupt;
use crate::parse::elementext::{child_text, child_u32, text_ok};
use crate::parse::error::{not_expected_tag, Config, SVDErrorAt};
use crate::tree::Element;

verus! {

/// Reads the description and the value of an interrupt whose name is
/// known: the description may be missing, the value may not.
pub fn parse_interrupt(tree: &Element, name: String) -> (res: Result<Interrupt, SVDErrorAt>)
    ensures
        res is Ok <==> text_ok(*tree, "description"@) && child_u32(*tree, "value"@) is Some,
        res is Ok ==> res->Ok_0 == (Interrupt {
            name,
            description: child_text(*tree, "description"@),
            value: child_u32(*tree, "value"@)->0,
        }),
        text_ok(*tree, "description"@) && tree.child("value"@) is None ==> res is Err
            && res->Err_0.is_missing_tag("value"@, tree.id),
{
    let description: Option<String> = tree.get_child_text_opt("description")?;
    let value: u32 = tree.get_child_u32("value")?;
    Ok(Interrupt { name, description, value })
}

impl Interrupt {
    /// Reads an interrupt from an `interrupt` element.
    pub fn parse(tree: &Element, _config: &Config) -> (res: Result<Interrupt, SVDErrorAt>)
        ensures
            tree.name@ != "interrupt"@ ==> res is Err && res->Err_0.is_not_expected_tag(
                "interrupt"@,
                tree.id,
            ),
            tree.name@ == "interrupt"@ ==> (res is Ok <==> child_text(*tree, "name"@) is Some
                && text_ok(*tree, "description"@) && child_u32(*tree, "value"@) is Some),
            res is Ok ==> res->Ok_0 == (Interrupt {
                name: child_text(*tree, "name"@)->0,
                description: child_text(*tree, "description"@),
                value: child_u32(*tree, "value"@)->0,
            }),
            tree.name@ == "interrupt"@ && tree.child("name"@) is None ==> res is Err
                && res->Err_0.is_missing_tag("name"@, tree.id),
    {
        if !tree.has_tag_name("interrupt") {
            return Err(not_expected_tag("interrupt", tree.id));
        }
        let name: String = tree.get_child_text("name")?;
        parse_interrupt(tree, name)
    }
}

} // verus!
