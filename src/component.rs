use vstd::prelude::*;

verus! {

/// The properties of the reusable component; its nested content is supplied
/// where it is rendered.
pub struct ComponentProps {
    pub title: String,
}

impl Default for ComponentProps {
    /// Properties with an empty title.
    fn default() -> (r: Self)
        ensures
            r.title@ == Seq::<char>::empty(),
    {
        ComponentProps { title: String::new() }
    }
}

/// What the component shows: a container of a style class with a heading,
/// followed by the nested content.
pub struct Section {
    pub class: String,
    pub heading: String,
}

/// The component's container: class `component`, headed by the title.
#[allow(non_snake_case)]
pub fn Component(props: &ComponentProps) -> (r: Section)
    ensures
        r.class@ == "component"@,
        r.heading@ == props.title@,
{
    Section { class: String::from_str("component"), heading: props.title.clone() }
}

} // verus!
