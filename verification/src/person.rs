//! A person who may not be older than thirty, with constructors as the `panic_to_result`
//! attribute leaves them.
use vstd::prelude::*;

verus! {

/// A person.
#[derive(Debug)]
pub struct Person {
    pub name: String,
    pub age: u32,
}

/// The oldest age that a person may have.
pub open spec fn max_age() -> u32 {
    30
}

/// The message with which a person older than allowed is refused.
pub open spec fn too_old_msg() -> Seq<char> {
    "I hope I die before I get old"@
}

/// A person of the given name and age; a person older than thirty is refused with the message
/// `I hope I die before I get old` (the panic with that message, rewritten by the attribute into
/// the returned error).
pub fn create_person(name: String, age: u32) -> (r: Result<Person, String>)
    ensures
        age <= max_age() <==> r is Ok,
        r matches Ok(p) ==> p.name@ == name@ && p.age == age,
        r matches Err(e) ==> e@ == too_old_msg(),
{
    if age > 30 {
        return Err(String::from_str("I hope I die before I get old"));
    }
    Ok(Person { name, age })
}

/// A person of the given name and age, who may not be older than thirty: the attribute keeps a
/// panic without message as a panic, so the result is always `Ok`.
pub fn create_person_with_empty_panic(name: String, age: u32) -> (r: Result<Person, String>)
    requires
        age <= max_age(),
    ensures
        r matches Ok(p) && p.name@ == name@ && p.age == age,
{
    Ok(Person { name, age })
}

/// A person of the given name and age; a person older than thirty is refused with the message
/// `I hope I die before I get old` (the attribute leaves a function that returns a `Result` as it
/// is).
pub fn create_person_with_result(name: String, age: u32) -> (r: Result<Person, String>)
    ensures
        age <= max_age() <==> r is Ok,
        r matches Ok(p) ==> p.name@ == name@ && p.age == age,
        r matches Err(e) ==> e@ == too_old_msg(),
{
    if age > 30 {
        return Err(String::from_str("I hope I die before I get old"));
    }
    Ok(Person { name, age })
}

/// A person of the given name and age, who may not be older than thirty; always `Ok` (the
/// attribute leaves this function as it is).
pub fn create_person_with_result_and_empty_panic(name: String, age: u32) -> (r: Result<Person, String>)
    requires
        age <= max_age(),
    ensures
        r matches Ok(p) && p.name@ == name@ && p.age == age,
{
    Ok(Person { name, age })
}

} // verus!
