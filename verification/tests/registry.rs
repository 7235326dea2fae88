use dog_registry::{Dog, NewDog};
use dog_registry::registry::DogMap;

fn fields(breed: &str, name: &str) -> NewDog {
    NewDog { breed: breed.to_string(), name: name.to_string() }
}

fn sorted_ids(dogs: &Vec<Dog>) -> Vec<String> {
    let mut ids: Vec<String> = dogs.iter().map(|dog| dog.id.clone()).collect();
    ids.sort();
    ids
}

#[test]
fn new_map_is_empty() {
    let map = DogMap::new();
    assert_eq!(map.len(), 0);
    assert!(map.list().is_empty());
    assert!(!map.contains("a"));
    assert!(map.get("a").is_none());
}

#[test]
fn insert_files_the_fields_under_the_id() {
    let mut map = DogMap::new();
    let dog = map.insert("a".to_string(), fields("Whippet", "Comet")).unwrap();
    assert_eq!(dog.id, "a");
    assert_eq!(dog.breed, "Whippet");
    assert_eq!(dog.name, "Comet");
    assert_eq!(map.len(), 1);
    assert!(map.contains("a"));
    let read = map.get("a").unwrap();
    assert_eq!(read.id, "a");
    assert_eq!(read.breed, "Whippet");
    assert_eq!(read.name, "Comet");
}

#[test]
fn insert_never_overwrites() {
    let mut map = DogMap::new();
    map.insert("a".to_string(), fields("Whippet", "Comet")).unwrap();
    let collision = map.insert("a".to_string(), fields("Poodle", "Rex")).unwrap_err();
    assert_eq!(collision.id, "a");
    assert_eq!(map.len(), 1);
    let read = map.get("a").unwrap();
    assert_eq!(read.breed, "Whippet");
    assert_eq!(read.name, "Comet");
}

#[test]
fn a_retired_id_is_not_issued_again() {
    let mut map = DogMap::new();
    map.insert("a".to_string(), fields("Whippet", "Comet")).unwrap();
    assert!(map.delete("a").is_some());
    assert!(map.insert("a".to_string(), fields("Poodle", "Rex")).is_err());
    assert!(map.get("a").is_none());
    assert_eq!(map.len(), 0);
    assert!(map.delete("a").is_none());
}

#[test]
fn get_returns_a_copy() {
    let mut map = DogMap::new();
    map.insert("a".to_string(), fields("Whippet", "Comet")).unwrap();
    let mut copy = map.get("a").unwrap();
    copy.name = "Changed".to_string();
    copy.id = "b".to_string();
    assert_eq!(map.get("a").unwrap().name, "Comet");
    assert!(map.get("b").is_none());
}

#[test]
fn list_holds_every_dog_once() {
    let mut map = DogMap::new();
    map.insert("a".to_string(), fields("Whippet", "Comet")).unwrap();
    map.insert("b".to_string(), fields("Poodle", "Rex")).unwrap();
    map.insert("c".to_string(), fields("Beagle", "Snoopy")).unwrap();
    let all = map.list();
    assert_eq!(all.len(), 3);
    assert_eq!(sorted_ids(&all), vec!["a".to_string(), "b".to_string(), "c".to_string()]);
    for dog in &all {
        let stored = map.get(&dog.id).unwrap();
        assert_eq!(stored.breed, dog.breed);
        assert_eq!(stored.name, dog.name);
    }
}

#[test]
fn replace_overwrites_breed_and_name() {
    let mut map = DogMap::new();
    map.insert("a".to_string(), fields("Whippet", "Comet")).unwrap();
    let body = Dog { id: "a".to_string(), breed: "Whippet".to_string(), name: "Comet II".to_string() };
    let stored = map.replace("a", body).unwrap();
    assert_eq!(stored.id, "a");
    assert_eq!(stored.breed, "Whippet");
    assert_eq!(stored.name, "Comet II");
    assert_eq!(map.get("a").unwrap().name, "Comet II");
    assert_eq!(map.len(), 1);
}

#[test]
fn replace_keeps_the_dog_under_the_addressed_id() {
    let mut map = DogMap::new();
    map.insert("a".to_string(), fields("Whippet", "Comet")).unwrap();
    let body = Dog { id: "zzz".to_string(), breed: "Poodle".to_string(), name: "Rex".to_string() };
    let stored = map.replace("a", body).unwrap();
    assert_eq!(stored.id, "a");
    assert_eq!(stored.breed, "Poodle");
    assert_eq!(stored.name, "Rex");
    assert!(map.get("zzz").is_none());
    assert_eq!(map.get("a").unwrap().id, "a");
    assert_eq!(map.len(), 1);
}

#[test]
fn replace_of_a_missing_dog_changes_nothing() {
    let mut map = DogMap::new();
    map.insert("a".to_string(), fields("Whippet", "Comet")).unwrap();
    let body = Dog { id: "b".to_string(), breed: "Poodle".to_string(), name: "Rex".to_string() };
    assert!(map.replace("b", body).is_none());
    assert_eq!(map.len(), 1);
    assert!(map.get("b").is_none());
    assert_eq!(map.get("a").unwrap().name, "Comet");
}

#[test]
fn delete_removes_the_dog() {
    let mut map = DogMap::new();
    map.insert("a".to_string(), fields("Whippet", "Comet")).unwrap();
    let removed = map.delete("a").unwrap();
    assert_eq!(removed.id, "a");
    assert_eq!(removed.breed, "Whippet");
    assert_eq!(removed.name, "Comet");
    assert!(map.get("a").is_none());
    assert!(!map.contains("a"));
    assert_eq!(map.len(), 0);
    assert!(map.list().is_empty());
}

#[test]
fn delete_of_a_missing_dog_twice_finds_nothing() {
    let mut map = DogMap::new();
    map.insert("a".to_string(), fields("Whippet", "Comet")).unwrap();
    assert!(map.delete("b").is_none());
    assert!(map.delete("b").is_none());
    assert_eq!(map.len(), 1);
    assert_eq!(map.get("a").unwrap().name, "Comet");
}

#[test]
fn delete_in_the_middle_keeps_the_others() {
    let mut map = DogMap::new();
    map.insert("a".to_string(), fields("A", "first")).unwrap();
    map.insert("b".to_string(), fields("B", "second")).unwrap();
    map.insert("c".to_string(), fields("C", "third")).unwrap();
    map.insert("d".to_string(), fields("D", "fourth")).unwrap();
    assert!(map.delete("b").is_some());
    assert_eq!(map.len(), 3);
    assert_eq!(map.get("a").unwrap().name, "first");
    assert!(map.get("b").is_none());
    assert_eq!(map.get("c").unwrap().name, "third");
    assert_eq!(map.get("d").unwrap().name, "fourth");
    assert_eq!(sorted_ids(&map.list()), vec!["a".to_string(), "c".to_string(), "d".to_string()]);
    assert!(map.delete("a").is_some());
    assert!(map.delete("d").is_some());
    assert_eq!(map.get("c").unwrap().breed, "C");
    assert_eq!(sorted_ids(&map.list()), vec!["c".to_string()]);
    let body = Dog { id: String::new(), breed: "C2".to_string(), name: "third again".to_string() };
    assert_eq!(map.replace("c", body).unwrap().id, "c");
    assert_eq!(map.get("c").unwrap().breed, "C2");
    assert!(map.delete("c").is_some());
    assert_eq!(map.len(), 0);
}

#[test]
fn delete_of_the_last_inserted_dog() {
    let mut map = DogMap::new();
    map.insert("a".to_string(), fields("A", "first")).unwrap();
    map.insert("b".to_string(), fields("B", "second")).unwrap();
    assert!(map.delete("b").is_some());
    assert_eq!(map.get("a").unwrap().name, "first");
    map.insert("c".to_string(), fields("C", "third")).unwrap();
    assert_eq!(map.get("c").unwrap().name, "third");
    assert_eq!(map.len(), 2);
}

#[test]
fn create_draws_a_random_identifier() {
    let mut map = DogMap::new();
    let dog = map.create(fields("Whippet", "Comet")).unwrap();
    let id: Vec<char> = dog.id.chars().collect();
    assert_eq!(id.len(), 36);
    for (i, c) in id.iter().enumerate() {
        if i == 8 || i == 13 || i == 18 || i == 23 {
            assert_eq!(*c, '-');
        } else {
            assert!(('0'..='9').contains(c) || ('a'..='f').contains(c));
        }
    }
    assert_eq!(id[14], '4');
    assert!(id[19] == '8' || id[19] == '9' || id[19] == 'a' || id[19] == 'b');
    assert_eq!(dog.breed, "Whippet");
    assert_eq!(dog.name, "Comet");
}

#[test]
fn a_created_dog_can_be_read_back() {
    let mut map = DogMap::new();
    map.insert("other".to_string(), fields("Poodle", "Rex")).unwrap();
    let dog = map.create(fields("Whippet", "Comet")).unwrap();
    let body = Dog { id: "other".to_string(), breed: "Poodle".to_string(), name: "Rex II".to_string() };
    map.replace("other", body).unwrap();
    let read = map.get(&dog.id).unwrap();
    assert_eq!(read.id, dog.id);
    assert_eq!(read.breed, "Whippet");
    assert_eq!(read.name, "Comet");
}

#[test]
fn creations_give_distinct_identifiers() {
    let mut map = DogMap::new();
    let n = 200;
    let mut ids = Vec::new();
    for i in 0..n {
        let dog = map.create(fields(&format!("breed-{}", i), &format!("name-{}", i))).unwrap();
        ids.push(dog.id);
    }
    assert_eq!(map.len(), n);
    let mut unique = ids.clone();
    unique.sort();
    unique.dedup();
    assert_eq!(unique.len(), n);
    for (i, id) in ids.iter().enumerate() {
        assert_eq!(map.get(id).unwrap().name, format!("name-{}", i));
    }
}

#[test]
fn a_deleted_dog_stays_absent() {
    let mut map = DogMap::new();
    let dog = map.create(fields("Whippet", "Comet")).unwrap();
    assert!(map.delete(&dog.id).is_some());
    assert!(map.get(&dog.id).is_none());
    for i in 0..50 {
        let other = map.create(fields("Poodle", &format!("Rex {}", i))).unwrap();
        assert_ne!(other.id, dog.id);
    }
    let body = Dog { id: dog.id.clone(), breed: "Whippet".to_string(), name: "Comet".to_string() };
    assert!(map.replace(&dog.id, body).is_none());
    assert!(map.get(&dog.id).is_none());
    assert!(map.delete(&dog.id).is_none());
}

#[test]
fn a_cycle_leaves_the_dogs_as_they_were() {
    let mut map = DogMap::new();
    map.insert("a".to_string(), fields("A", "first")).unwrap();
    map.insert("b".to_string(), fields("B", "second")).unwrap();
    for round in 0..20 {
        let dog = map.create(fields("Whippet", &format!("Comet {}", round))).unwrap();
        let body = Dog { id: dog.id.clone(), breed: dog.breed.clone(), name: "renamed".to_string() };
        assert_eq!(map.replace(&dog.id, body).unwrap().name, "renamed");
        assert!(map.delete(&dog.id).is_some());
        assert_eq!(map.len(), 2);
    }
    assert_eq!(sorted_ids(&map.list()), vec!["a".to_string(), "b".to_string()]);
    assert_eq!(map.get("a").unwrap().name, "first");
    assert_eq!(map.get("b").unwrap().name, "second");
}

#[test]
fn dog_clone_keeps_every_field() {
    let dog = Dog { id: "a".to_string(), breed: "Whippet".to_string(), name: "Comet".to_string() };
    let copy = dog.clone();
    assert_eq!(copy.id, "a");
    assert_eq!(copy.breed, "Whippet");
    assert_eq!(copy.name, "Comet");
    let fields = dog.fields();
    assert_eq!(fields.breed, "Whippet");
    assert_eq!(fields.name, "Comet");
    let again = Dog::from_fields("b".to_string(), fields.clone());
    assert_eq!(again.id, "b");
    assert_eq!(again.breed, "Whippet");
    assert_eq!(again.name, "Comet");
}
