# short_link

A link-shortening service. `src/` is the verified library: the entities
(users, links, link ids), the steps of each service operation (register,
login, rename, create/view/count/delete a link, the read-through link cache),
the HTTP answers chosen from their outcomes, and the guard of the routes for
signed-in users. Each step takes what the previous outside work returned
(a store query, a cache read, a token check) and says what to do next.

`app/` is the server around it: settings, database and cache I/O,
transactions, token signing and password hashing, the axum routes and the
serde copies of the library's types.
