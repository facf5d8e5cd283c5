//! The argument of `#[handler(..)]`: exactly one IRQ name, from the table
//! of IRQs that the selected MCU model supports.
use vstd::prelude::*;

use crate::signature::Rejection;

verus! {

/// One comma-separated argument of an attribute.
pub enum AttrArg {
    /// A bare path, such as `TIM2` or `irq::TIM2`: whether it starts with
    /// `::`, and the identifier of each segment.
    Path(bool, Vec<String>),
    /// Anything else: a literal or a structured meta item.
    Other,
}

/// The mathematical value of an [`AttrArg`].
pub enum AttrArgView {
    Path(bool, Seq<Seq<char>>),
    Other,
}

impl View for AttrArg {
    type V = AttrArgView;

    open spec fn view(&self) -> AttrArgView {
        match self {
            AttrArg::Path(lead, segs) => AttrArgView::Path(*lead, strings_view(segs@)),
            AttrArg::Other => AttrArgView::Other,
        }
    }
}

/// The views of a list of attribute arguments.
pub open spec fn args_view(args: Seq<AttrArg>) -> Seq<AttrArgView> {
    args.map_values(|a: AttrArg| a@)
}

/// The views of a list of strings.
pub open spec fn strings_view(v: Seq<String>) -> Seq<Seq<char>> {
    v.map_values(|s: String| s@)
}

/// The IRQ named by the handler attribute: the arguments must be a single
/// path made of one identifier, and that identifier must be one of the
/// supported IRQ names.
pub open spec fn irq_of_args(args: Seq<AttrArgView>, supported: Seq<Seq<char>>) -> Result<
    Seq<char>,
    Rejection,
> {
    if args.len() != 1 {
        Err(Rejection::UnsupportedIrq)
    } else {
        match args[0] {
            AttrArgView::Path(lead, segs) => if !lead && segs.len() == 1 && supported.contains(
                segs[0],
            ) {
                Ok(segs[0])
            } else {
                Err(Rejection::UnsupportedIrq)
            },
            AttrArgView::Other => Err(Rejection::UnsupportedIrq),
        }
    }
}

/// The view of a computed string or of the reason it was refused.
pub open spec fn text_or_rejection(r: Result<String, Rejection>) -> Result<Seq<char>, Rejection> {
    match r {
        Ok(s) => Ok(s@),
        Err(j) => Err(j),
    }
}

/// Finds the IRQ named by the handler attribute's arguments, provided it is
/// one of `supported_irqs`, or the reason it is refused.
pub fn irq_of_attribute_args(attr_args: &[AttrArg], supported_irqs: &[String]) -> (r: Result<
    String,
    Rejection,
>)
    ensures
        text_or_rejection(r) == irq_of_args(args_view(attr_args@), strings_view(supported_irqs@)),
{
    let ghost args = args_view(attr_args@);
    let ghost table = strings_view(supported_irqs@);
    if attr_args.len() != 1 {
        return Err(Rejection::UnsupportedIrq);
    }
    let arg = match &attr_args[0] {
        AttrArg::Path(lead, segs) => {
            if *lead || segs.len() != 1 {
                return Err(Rejection::UnsupportedIrq);
            }
            &segs[0]
        },
        AttrArg::Other => {
            return Err(Rejection::UnsupportedIrq);
        },
    };
    assert(args[0] matches AttrArgView::Path(lead, segs) && !lead && segs.len() == 1 && segs[0]
        == arg@);
    let mut i: usize = 0;
    while i < supported_irqs.len()
        invariant
            i <= supported_irqs@.len(),
            table == strings_view(supported_irqs@),
            args == args_view(attr_args@),
            args.len() == 1,
            args[0] matches AttrArgView::Path(lead, segs) && !lead && segs.len() == 1 && segs[0]
                == arg@,
            forall|j: int| 0 <= j < i ==> #[trigger] table[j] != arg@,
        decreases supported_irqs.len() - i,
    {
        if supported_irqs[i] == *arg {
            assert(table[i as int] == arg@);
            assert(table.contains(arg@));
            let irq = arg.clone();
            return Ok(irq);
        }
        i = i + 1;
    }
    assert(!table.contains(arg@)) by {
        if table.contains(arg@) {
            let k = choose|k: int| 0 <= k < table.len() && table[k] == arg@;
            assert(table[k] != arg@);
        }
    }
    Err(Rejection::UnsupportedIrq)
}

/// Returns the IRQ named by the handler attribute's arguments. Arguments that
/// do not name exactly one supported IRQ are refused with the message of
/// `irq_of_attribute_args`, which macro callers consult first; this function
/// admits only arguments that do.
pub fn parse_attribute_arg_to_irq(attr_args: &[AttrArg], supported_irqs: &[String]) -> (r: String)
    requires
        irq_of_args(args_view(attr_args@), strings_view(supported_irqs@)) is Ok,
    ensures
        irq_of_args(args_view(attr_args@), strings_view(supported_irqs@)) == Ok::<
            Seq<char>,
            Rejection,
        >(r@),
{
    match irq_of_attribute_args(attr_args, supported_irqs) {
        Ok(irq) => irq,
        Err(_) => {
            assert(false);
            String::new()
        },
    }
}

} // verus!
