use vstd::prelude::*;

verus! {

/// A SQL bind parameter. Operand values reach the data store only as one
/// of these, bound by position; the library never splices an operand into
/// statement text.
#[derive(Clone, Debug, PartialEq)]
pub enum Value {
    Int(i32),
    Text(String),
    Null,
}

/// Mathematical model of a bind parameter.
pub enum ValueModel {
    Int(int),
    Text(Seq<char>),
    Null,
}

impl View for Value {
    type V = ValueModel;

    open spec fn view(&self) -> ValueModel {
        match self {
            Value::Int(i) => ValueModel::Int(*i as int),
            Value::Text(s) => ValueModel::Text(s@),
            Value::Null => ValueModel::Null,
        }
    }
}

/// The models of a parameter list, in bind order.
pub open spec fn values_view(vs: Seq<Value>) -> Seq<ValueModel> {
    vs.map_values(|v: Value| v@)
}

/// One statement ready for the store: SQL text plus its bind parameters,
/// listed in placeholder order.
#[derive(Clone, Debug, PartialEq)]
pub struct Statement {
    pub sql: String,
    pub params: Vec<Value>,
}

} // verus!
