//! What a load test sends: numbered dogs to create, renamed dogs to replace
//! them with, and the addresses to delete them at. Sending is left to the
//! program that runs the test.

use vstd::prelude::*;
use vstd::string::*;
use crate::dog::{Dog, DogView, NewDog, NewDogView};

verus! {

/// The character for a digit below ten.
pub open spec fn digit(d: nat) -> char {
    if d == 0 {
        '0'
    } else if d == 1 {
        '1'
    } else if d == 2 {
        '2'
    } else if d == 3 {
        '3'
    } else if d == 4 {
        '4'
    } else if d == 5 {
        '5'
    } else if d == 6 {
        '6'
    } else if d == 7 {
        '7'
    } else if d == 8 {
        '8'
    } else {
        '9'
    }
}

/// A number in decimal, without leading zeros.
pub open spec fn decimal(n: nat) -> Seq<char>
    decreases n,
{
    if n < 10 {
        seq![digit(n)]
    } else {
        decimal(n / 10).push(digit(n % 10))
    }
}

/// The fields of the `i`-th dog of a load test.
pub open spec fn numbered(i: nat) -> NewDogView {
    NewDogView { breed: "breed-"@ + decimal(i), name: "name-"@ + decimal(i) }
}

/// A dog after the load test has renamed it: the same identifier, and
/// `new-` before its breed and its name.
pub open spec fn renamed(dog: DogView) -> DogView {
    DogView { id: dog.id, breed: "new-"@ + dog.breed, name: "new-"@ + dog.name }
}

/// The address of the dog `id` at a service whose address is `base`.
pub open spec fn url_of(base: Seq<char>, id: Seq<char>) -> Seq<char> {
    base + "/"@ + id
}

fn digit_text(d: usize) -> (text: &'static str)
    requires
        d < 10,
    ensures
        text@ == seq![digit(d as nat)],
{
    proof {
        reveal_strlit("0");
        reveal_strlit("1");
        reveal_strlit("2");
        reveal_strlit("3");
        reveal_strlit("4");
        reveal_strlit("5");
        reveal_strlit("6");
        reveal_strlit("7");
        reveal_strlit("8");
        reveal_strlit("9");
    }
    let text = if d == 0 {
        "0"
    } else if d == 1 {
        "1"
    } else if d == 2 {
        "2"
    } else if d == 3 {
        "3"
    } else if d == 4 {
        "4"
    } else if d == 5 {
        "5"
    } else if d == 6 {
        "6"
    } else if d == 7 {
        "7"
    } else if d == 8 {
        "8"
    } else {
        "9"
    };
    assert(text@ =~= seq![digit(d as nat)]);
    text
}

/// Writes `n` in decimal.
pub fn decimal_string(n: usize) -> (text: String)
    ensures
        text@ == decimal(n as nat),
    decreases n,
{
    if n < 10 {
        String::from_str(digit_text(n))
    } else {
        let mut text = decimal_string(n / 10);
        text.append(digit_text(n % 10));
        assert(text@ =~= decimal(n as nat));
        text
    }
}

/// The fields of the `i`-th dog that a load test creates: `breed-i` and
/// `name-i`.
pub fn numbered_dog(i: usize) -> (fields: NewDog)
    ensures
        fields@ == numbered(i as nat),
{
    let number = decimal_string(i);
    let breed = String::from_str("breed-").concat(number.as_str());
    let name = String::from_str("name-").concat(number.as_str());
    NewDog { breed, name }
}

/// The dog that a load test replaces `dog` with.
pub fn renamed_dog(dog: &Dog) -> (new: Dog)
    ensures
        new@ == renamed(dog@),
{
    let breed = String::from_str("new-").concat(dog.breed.as_str());
    let name = String::from_str("new-").concat(dog.name.as_str());
    Dog { id: dog.id.clone(), breed, name }
}

/// The address of the dog `id` at the service `base`.
pub fn dog_url(base: &str, id: &str) -> (url: String)
    ensures
        url@ == url_of(base@, id@),
{
    String::from_str(base).concat("/").concat(id)
}

/// The addresses to send a deletion to so that none of `dogs` is left: one
/// for each dog, in the order of `dogs`.
pub fn deletion_urls(base: &str, dogs: &Vec<Dog>) -> (urls: Vec<String>)
    ensures
        urls@.len() == dogs@.len(),
        forall|i: int|
            0 <= i < urls@.len() ==> (#[trigger] urls@[i])@ == url_of(base@, dogs@[i]@.id),
{
    let mut urls: Vec<String> = Vec::new();
    let mut i: usize = 0;
    while i < dogs.len()
        invariant
            i <= dogs@.len(),
            urls@.len() == i,
            forall|j: int| 0 <= j < i ==> (#[trigger] urls@[j])@ == url_of(base@, dogs@[j]@.id),
        decreases dogs@.len() - i,
    {
        urls.push(dog_url(base, dogs[i].id.as_str()));
        i = i + 1;
    }
    urls
}

/// The fields of the dogs that a load test of `count` dogs creates, in the
/// order in which it creates them.
pub fn creations(count: usize) -> (bodies: Vec<NewDog>)
    ensures
        bodies@.len() == count,
        forall|i: int| 0 <= i < count ==> (#[trigger] bodies@[i])@ == numbered(i as nat),
{
    let mut bodies: Vec<NewDog> = Vec::new();
    let mut i: usize = 0;
    while i < count
        invariant
            i <= count,
            bodies@.len() == i,
            forall|j: int| 0 <= j < i ==> (#[trigger] bodies@[j])@ == numbered(j as nat),
        decreases count - i,
    {
        bodies.push(numbered_dog(i));
        i = i + 1;
    }
    bodies
}

/// What a load test replaces `dogs` with: for each dog, in order, its
/// address at the service `base` and the renamed dog to put there.
pub fn replacements(base: &str, dogs: &Vec<Dog>) -> (puts: Vec<(String, Dog)>)
    ensures
        puts@.len() == dogs@.len(),
        forall|i: int|
            0 <= i < puts@.len() ==> {
                &&& (#[trigger] puts@[i]).0@ == url_of(base@, dogs@[i]@.id)
                &&& puts@[i].1@ == renamed(dogs@[i]@)
            },
{
    let mut puts: Vec<(String, Dog)> = Vec::new();
    let mut i: usize = 0;
    while i < dogs.len()
        invariant
            i <= dogs@.len(),
            puts@.len() == i,
            forall|j: int|
                0 <= j < i ==> {
                    &&& (#[trigger] puts@[j]).0@ == url_of(base@, dogs@[j]@.id)
                    &&& puts@[j].1@ == renamed(dogs@[j]@)
                },
        decreases dogs@.len() - i,
    {
        let url = dog_url(base, dogs[i].id.as_str());
        puts.push((url, renamed_dog(&dogs[i])));
        i = i + 1;
    }
    puts
}

} // verus!
