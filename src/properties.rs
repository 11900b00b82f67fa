use vstd::prelude::*;

verus! {

/// Names of a road, the primary one and alternatives.
#[derive(Clone, Debug)]
pub struct Names {
    pub primary: Option<String>,
    pub alternative: Option<Vec<String>>,
}

/// The travel situations an access restriction is limited to.
#[derive(Clone, Copy, Debug, PartialEq, Eq, Structural)]
pub struct AccessWhen {
    pub vehicle: Option<bool>,
    pub bicycle: Option<bool>,
    pub pedestrian: Option<bool>,
}

/// One access restriction of a segment. `access_type` names a qualifier
/// (`designated_`, `denied_`, or anything else for allowed) and a travel mode
/// (foot, bicycle, bus, hgv, car / motor_vehicle / vehicle), as in
/// `denied_car`.
#[derive(Clone, Debug)]
pub struct AccessRestriction {
    pub access_type: String,
    pub when: Option<AccessWhen>,
}

/// What an access restriction says, as plain values.
pub open spec fn restriction_view(r: AccessRestriction) -> (Seq<char>, Option<AccessWhen>) {
    (r.access_type@, r.when)
}

/// Copies a list of access restrictions.
pub fn copy_restrictions(v: &Vec<AccessRestriction>) -> (r: Vec<AccessRestriction>)
    ensures
        r@.map_values(|x: AccessRestriction| restriction_view(x)) == v@.map_values(
            |x: AccessRestriction| restriction_view(x),
        ),
{
    let mut r: Vec<AccessRestriction> = Vec::new();
    let mut i: usize = 0;
    while i < v.len()
        invariant
            i <= v@.len(),
            r@.len() == i,
            forall|j: int| 0 <= j < i ==> restriction_view(#[trigger] r@[j]) == restriction_view(v@[j]),
        decreases v@.len() - i,
    {
        let item = AccessRestriction { access_type: v[i].access_type.clone(), when: v[i].when };
        r.push(item);
        i = i + 1;
    }
    assert(r@.map_values(|x: AccessRestriction| restriction_view(x)) =~= v@.map_values(
        |x: AccessRestriction| restriction_view(x),
    ));
    r
}

} // verus!
