//! The builder of a variable and the arguments of the call that adds it.

use vstd::prelude::*;
use crate::var::{GRBVar, GRBVarType};

verus! {

/// A variable that is not yet part of a model. Whatever is left unset takes
/// its default when the variable is added: lower bound 0, no upper bound,
/// objective coefficient 0, continuous, no name.
#[derive(Debug)]
pub struct GRBVarBuilder {
    lb: Option<i64>,
    ub: Option<i64>,
    obj: Option<i64>,
    vtype: Option<GRBVarType>,
    name: Option<String>,
}

/// The arguments of the engine call that adds one variable without
/// coefficients in existing constraints.
#[derive(Debug)]
pub struct AddVarArgs {
    /// The objective coefficient.
    pub obj: i64,
    /// The lower bound.
    pub lb: i64,
    /// The upper bound; `None` for a variable that is not bounded above.
    pub ub: Option<i64>,
    /// The variable type as the engine's character.
    pub vtype: u8,
    /// The name, if the variable has one.
    pub name: Option<String>,
}

/// What a text holds, where there is one.
pub open spec fn text_of(name: Option<String>) -> Option<Seq<char>> {
    match name {
        Some(s) => Some(s@),
        None => None,
    }
}

impl GRBVarBuilder {
    pub closed spec fn spec_lb(&self) -> Option<i64> {
        self.lb
    }

    pub closed spec fn spec_ub(&self) -> Option<i64> {
        self.ub
    }

    pub closed spec fn spec_obj(&self) -> Option<i64> {
        self.obj
    }

    pub closed spec fn spec_vtype(&self) -> Option<GRBVarType> {
        self.vtype
    }

    pub closed spec fn spec_name(&self) -> Option<Seq<char>> {
        text_of(self.name)
    }

    /// Sets the lower bound and leaves the rest.
    pub fn lb(self, lb: i64) -> (b: Self)
        ensures
            b.spec_lb() == Some(lb),
            b.spec_ub() == self.spec_ub(),
            b.spec_obj() == self.spec_obj(),
            b.spec_vtype() == self.spec_vtype(),
            b.spec_name() == self.spec_name(),
    {
        GRBVarBuilder { lb: Some(lb), ub: self.ub, obj: self.obj, vtype: self.vtype, name: self.name }
    }

    /// Sets the upper bound and leaves the rest.
    pub fn ub(self, ub: i64) -> (b: Self)
        ensures
            b.spec_lb() == self.spec_lb(),
            b.spec_ub() == Some(ub),
            b.spec_obj() == self.spec_obj(),
            b.spec_vtype() == self.spec_vtype(),
            b.spec_name() == self.spec_name(),
    {
        GRBVarBuilder { lb: self.lb, ub: Some(ub), obj: self.obj, vtype: self.vtype, name: self.name }
    }

    /// Sets the objective coefficient and leaves the rest.
    pub fn obj(self, obj: i64) -> (b: Self)
        ensures
            b.spec_lb() == self.spec_lb(),
            b.spec_ub() == self.spec_ub(),
            b.spec_obj() == Some(obj),
            b.spec_vtype() == self.spec_vtype(),
            b.spec_name() == self.spec_name(),
    {
        GRBVarBuilder { lb: self.lb, ub: self.ub, obj: Some(obj), vtype: self.vtype, name: self.name }
    }

    /// Sets the variable type and leaves the rest.
    pub fn vtype(self, vtype: GRBVarType) -> (b: Self)
        ensures
            b.spec_lb() == self.spec_lb(),
            b.spec_ub() == self.spec_ub(),
            b.spec_obj() == self.spec_obj(),
            b.spec_vtype() == Some(vtype),
            b.spec_name() == self.spec_name(),
    {
        GRBVarBuilder { lb: self.lb, ub: self.ub, obj: self.obj, vtype: Some(vtype), name: self.name }
    }

    /// Sets the name and leaves the rest.
    pub fn name(self, name: String) -> (b: Self)
        ensures
            b.spec_lb() == self.spec_lb(),
            b.spec_ub() == self.spec_ub(),
            b.spec_obj() == self.spec_obj(),
            b.spec_vtype() == self.spec_vtype(),
            b.spec_name() == Some(name@),
    {
        GRBVarBuilder { lb: self.lb, ub: self.ub, obj: self.obj, vtype: self.vtype, name: Some(name) }
    }

    /// The arguments that the builder stands for, each unset field replaced
    /// by its default.
    pub open spec fn spec_args(&self, args: AddVarArgs) -> bool {
        &&& args.obj == match self.spec_obj() {
            Some(v) => v,
            None => 0i64,
        }
        &&& args.lb == match self.spec_lb() {
            Some(v) => v,
            None => 0i64,
        }
        &&& args.ub == self.spec_ub()
        &&& args.vtype == match self.spec_vtype() {
            Some(t) => t.spec_grb_type(),
            None => GRBVarType::CONTINUOUS.spec_grb_type(),
        }
        &&& text_of(args.name) == self.spec_name()
    }

    /// Ends the building: turns the builder into the arguments of the call
    /// that adds the variable.
    pub fn add_to_model(self) -> (args: AddVarArgs)
        ensures
            self.spec_args(args),
    {
        let vtype = match self.vtype {
            Some(t) => t.grb_type(),
            None => GRBVarType::CONTINUOUS.grb_type(),
        };
        AddVarArgs {
            obj: match self.obj {
                Some(v) => v,
                None => 0,
            },
            lb: match self.lb {
                Some(v) => v,
                None => 0,
            },
            ub: self.ub,
            vtype,
            name: self.name,
        }
    }
}

impl GRBVar {
    /// A builder with nothing set.
    pub fn builder() -> (b: GRBVarBuilder)
        ensures
            b.spec_lb().is_none(),
            b.spec_ub().is_none(),
            b.spec_obj().is_none(),
            b.spec_vtype().is_none(),
            b.spec_name().is_none(),
    {
        GRBVarBuilder { lb: None, ub: None, obj: None, vtype: None, name: None }
    }
}

} // verus!
