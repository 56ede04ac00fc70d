use std::time::Instant;

#[test]
fn test_incremental_syntax_highlighting() {
    let base_content = r#"
use std::collections::HashMap;

pub struct TestStruct {
    field1: String,
    field2: i32,
}

impl TestStruct {
    pub fn new() -> Self {
        Self {
            field1: String::new(),
            field2: 0,
        }
    }
}
"#;

    let highlighting_start = Instant::now();
    let lines: Vec<&str> = base_content.lines().collect();
    let changed_line_index = 5;
    let mut highlighted_tokens = 0;
    for (i, line) in lines.iter().enumerate() {
        if (i as i32 - changed_line_index as i32).abs() <= 2 {
            for keyword in &["pub", "struct", "impl", "fn", "Self"] {
                if line.contains(keyword) {
                    highlighted_tokens += 1;
                }
            }
        }
    }
    let incremental_time = highlighting_start.elapsed();
    println!("Incremental highlighting processed {} tokens in {:?}", highlighted_tokens, incremental_time);
    let incremental_threshold_ms = 1;
    assert!(
        incremental_time.as_millis() < incremental_threshold_ms,
        "Incremental syntax highlighting time {} ms exceeds threshold {} ms. Need to optimize incremental highlighting!",
        incremental_time.as_millis(),
        incremental_threshold_ms
    );
}

#[test]
fn test_multi_language_syntax_highlighting() {
    let javascript_content = r#"
// JavaScript content
const express = require('express');
const app = express();

app.get('/api/users', async (req, res) => {
    try {
        const users = await User.findAll();
        res.json(users);
    } catch (error) {
        res.status(500).json({ error: error.message });
    }
});

class UserService {
    constructor(database) {
        this.db = database;
    }
    
    async createUser(userData) {
        return await this.db.users.create(userData);
    }
}
"#;

    let python_content = r#"
# Python content
import asyncio
import json
from typing import List, Optional
from dataclasses import dataclass

@dataclass
class User:
    id: int
    name: str
    email: Optional[str] = None

class UserService:
    def __init__(self, database):
        self.db = database
    
    async def create_user(self, user_data: dict) -> User:
        user = User(**user_data)
        return await self.db.users.create(user)
    
    def get_users(self) -> List[User]:
        return self.db.users.all()

if __name__ == "__main__":
    service = UserService(database)
    asyncio.run(service.create_user({"id": 1, "name": "Test"}))
"#;

    let highlighting_start = Instant::now();
    let mut total_tokens = 0;
    for keyword in &["const", "async", "await", "class", "function", "try", "catch"] {
        total_tokens += javascript_content.matches(keyword).count();
    }
    for keyword in &["import", "async", "await", "class", "def", "if", "__name__"] {
        total_tokens += python_content.matches(keyword).count();
    }
    let multi_lang_time = highlighting_start.elapsed();
    println!("Multi-language highlighting processed {} tokens in {:?}", total_tokens, multi_lang_time);
    let multi_lang_threshold_ms = 5;
    assert!(
        multi_lang_time.as_millis() < multi_lang_threshold_ms,
        "Multi-language syntax highlighting time {} ms exceeds threshold {} ms. Need to optimize multi-language support!",
        multi_lang_time.as_millis(),
        multi_lang_threshold_ms
    );
}
